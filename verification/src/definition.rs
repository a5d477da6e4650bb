//! The description of a contract's interface, from which glue code for the
//! guest is generated: the types that may cross the SCCS and the calls that
//! move them.

use vstd::prelude::*;
use vstd::string::StringExecFns;

verus! {

/// The interface of a contract.
#[derive(Debug)]
pub struct ContractDefinitions {
    pub name: String,
    pub implements: Vec<String>,
    pub functions: Vec<Function>,
}

/// One function of a contract.
#[derive(Debug)]
pub struct Function {
    pub name: String,
    pub inputs: Vec<Ty>,
    pub outputs: Vec<Ty>,
    /// The statements that pop the arguments, one per line.
    pub pop_funcs_string: String,
    /// The statements that push the results, one per line.
    pub push_func_string: String,
    /// The names of the popped arguments, separated by commas.
    pub args_string: String,
}

/// One argument or result of a function.
#[derive(Debug)]
pub struct Ty {
    pub name: String,
    /// The name of the type.
    pub ty: String,
    /// Whether this is the last argument.
    pub last: bool,
}

/// The name under which the glue code knows a type, if the type may cross
/// the SCCS: the names of the interface description and the names of the
/// glue code itself are accepted.
pub open spec fn canonical_type(ty: Seq<char>) -> Option<Seq<char>> {
    if ty == "uint8"@ || ty == "u8"@ {
        Some("u8"@)
    } else if ty == "uint16"@ || ty == "u16"@ {
        Some("u16"@)
    } else if ty == "uint32"@ || ty == "u32"@ {
        Some("u32"@)
    } else if ty == "uint64"@ || ty == "u64"@ {
        Some("u64"@)
    } else if ty == "int8"@ || ty == "i8"@ {
        Some("i8"@)
    } else if ty == "int16"@ || ty == "i16"@ {
        Some("i16"@)
    } else if ty == "int32"@ || ty == "i32"@ {
        Some("i32"@)
    } else if ty == "int64"@ || ty == "i64"@ {
        Some("i64"@)
    } else if ty == "string"@ || ty == "String"@ {
        Some("String"@)
    } else if ty == "address"@ || ty == "NeutronAddress"@ {
        Some("NeutronAddress"@)
    } else {
        None
    }
}

/// The call that pops a value of the type off the SCCS, if there is one.
pub open spec fn pop_func(ty: Seq<char>) -> Option<Seq<char>> {
    if ty == "u8"@ {
        Some("pop_sccs_u8()"@)
    } else if ty == "i8"@ {
        Some("pop_sccs_i8()"@)
    } else if ty == "u16"@ {
        Some("pop_sccs_u16()"@)
    } else if ty == "i16"@ {
        Some("pop_sccs_i16()"@)
    } else if ty == "u32"@ {
        Some("pop_sccs_u32()"@)
    } else if ty == "i32"@ {
        Some("pop_sccs_i32()"@)
    } else if ty == "u64"@ {
        Some("pop_sccs_u64()"@)
    } else if ty == "i64"@ {
        Some("pop_sccs_i64()"@)
    } else if ty == "String"@ {
        Some("pop_sccs_string()"@)
    } else if ty == "NeutronAddress"@ {
        Some("pop_sccs_address()"@)
    } else {
        None
    }
}

/// The call that pushes the result, a value of the type, onto the SCCS, if
/// there is one.
pub open spec fn push_func(ty: Seq<char>) -> Option<Seq<char>> {
    if ty == "u8"@ {
        Some("push_sccs_u8(result)"@)
    } else if ty == "i8"@ {
        Some("push_sccs_i8(result)"@)
    } else if ty == "u16"@ {
        Some("push_sccs_u16(result)"@)
    } else if ty == "i16"@ {
        Some("push_sccs_i16(result)"@)
    } else if ty == "u32"@ {
        Some("push_sccs_u32(result)"@)
    } else if ty == "i32"@ {
        Some("push_sccs_i32(result)"@)
    } else if ty == "u64"@ {
        Some("push_sccs_u64(result)"@)
    } else if ty == "i64"@ {
        Some("push_sccs_i64(result)"@)
    } else if ty == "String"@ {
        Some("push_sccs_string(result)"@)
    } else if ty == "NeutronAddress"@ {
        Some("push_sccs_address(result)"@)
    } else {
        None
    }
}

fn is_text(s: &String, text: &str) -> (same: bool)
    ensures
        same == (s@ == text@),
{
    *s == String::from_str(text)
}

/// Computes `canonical_type`.
pub fn find_type(ty: &String) -> (found: Option<String>)
    ensures
        match found {
            Some(name) => canonical_type(ty@) == Some(name@),
            None => canonical_type(ty@) is None,
        },
{
    if is_text(ty, "uint8") || is_text(ty, "u8") {
        Some(String::from_str("u8"))
    } else if is_text(ty, "uint16") || is_text(ty, "u16") {
        Some(String::from_str("u16"))
    } else if is_text(ty, "uint32") || is_text(ty, "u32") {
        Some(String::from_str("u32"))
    } else if is_text(ty, "uint64") || is_text(ty, "u64") {
        Some(String::from_str("u64"))
    } else if is_text(ty, "int8") || is_text(ty, "i8") {
        Some(String::from_str("i8"))
    } else if is_text(ty, "int16") || is_text(ty, "i16") {
        Some(String::from_str("i16"))
    } else if is_text(ty, "int32") || is_text(ty, "i32") {
        Some(String::from_str("i32"))
    } else if is_text(ty, "int64") || is_text(ty, "i64") {
        Some(String::from_str("i64"))
    } else if is_text(ty, "string") || is_text(ty, "String") {
        Some(String::from_str("String"))
    } else if is_text(ty, "address") || is_text(ty, "NeutronAddress") {
        Some(String::from_str("NeutronAddress"))
    } else {
        None
    }
}

/// Computes `pop_func`.
pub fn find_pop_func(ty: &String) -> (found: Option<String>)
    ensures
        match found {
            Some(call) => pop_func(ty@) == Some(call@),
            None => pop_func(ty@) is None,
        },
{
    if is_text(ty, "u8") {
        Some(String::from_str("pop_sccs_u8()"))
    } else if is_text(ty, "i8") {
        Some(String::from_str("pop_sccs_i8()"))
    } else if is_text(ty, "u16") {
        Some(String::from_str("pop_sccs_u16()"))
    } else if is_text(ty, "i16") {
        Some(String::from_str("pop_sccs_i16()"))
    } else if is_text(ty, "u32") {
        Some(String::from_str("pop_sccs_u32()"))
    } else if is_text(ty, "i32") {
        Some(String::from_str("pop_sccs_i32()"))
    } else if is_text(ty, "u64") {
        Some(String::from_str("pop_sccs_u64()"))
    } else if is_text(ty, "i64") {
        Some(String::from_str("pop_sccs_i64()"))
    } else if is_text(ty, "String") {
        Some(String::from_str("pop_sccs_string()"))
    } else if is_text(ty, "NeutronAddress") {
        Some(String::from_str("pop_sccs_address()"))
    } else {
        None
    }
}

/// Computes `push_func`.
pub fn find_push_func(ty: &String) -> (found: Option<String>)
    ensures
        match found {
            Some(call) => push_func(ty@) == Some(call@),
            None => push_func(ty@) is None,
        },
{
    if is_text(ty, "u8") {
        Some(String::from_str("push_sccs_u8(result)"))
    } else if is_text(ty, "i8") {
        Some(String::from_str("push_sccs_i8(result)"))
    } else if is_text(ty, "u16") {
        Some(String::from_str("push_sccs_u16(result)"))
    } else if is_text(ty, "i16") {
        Some(String::from_str("push_sccs_i16(result)"))
    } else if is_text(ty, "u32") {
        Some(String::from_str("push_sccs_u32(result)"))
    } else if is_text(ty, "i32") {
        Some(String::from_str("push_sccs_i32(result)"))
    } else if is_text(ty, "u64") {
        Some(String::from_str("push_sccs_u64(result)"))
    } else if is_text(ty, "i64") {
        Some(String::from_str("push_sccs_i64(result)"))
    } else if is_text(ty, "String") {
        Some(String::from_str("push_sccs_string(result)"))
    } else if is_text(ty, "NeutronAddress") {
        Some(String::from_str("push_sccs_address(result)"))
    } else {
        None
    }
}

/// The name under which the glue code knows the type. The type must be one
/// that may cross the SCCS.
pub fn match_types(ty: String) -> (fixed_ty: String)
    requires
        canonical_type(ty@) is Some,
    ensures
        canonical_type(ty@) == Some(fixed_ty@),
{
    match find_type(&ty) {
        Some(name) => name,
        None => ty,
    }
}

/// The call that pops a value of the type off the SCCS. The type must be
/// known to the glue code.
pub fn match_pop_funcs(ty: String) -> (pop_func_str: String)
    requires
        pop_func(ty@) is Some,
    ensures
        pop_func(ty@) == Some(pop_func_str@),
{
    match find_pop_func(&ty) {
        Some(call) => call,
        None => ty,
    }
}

/// The call that pushes the result, a value of the type, onto the SCCS. The
/// type must be known to the glue code.
pub fn match_push_funcs(ty: String) -> (push_func_str: String)
    requires
        push_func(ty@) is Some,
    ensures
        push_func(ty@) == Some(push_func_str@),
{
    match find_push_func(&ty) {
        Some(call) => call,
        None => ty,
    }
}

/// An argument or result as plain values.
pub struct TyView {
    pub name: Seq<char>,
    pub ty: Seq<char>,
    pub last: bool,
}

/// A function as plain values.
pub struct FunctionView {
    pub name: Seq<char>,
    pub inputs: Seq<TyView>,
    pub outputs: Seq<TyView>,
    pub pop_funcs_string: Seq<char>,
    pub push_func_string: Seq<char>,
    pub args_string: Seq<char>,
}

impl View for Ty {
    type V = TyView;

    open spec fn view(&self) -> TyView {
        TyView { name: self.name@, ty: self.ty@, last: self.last }
    }
}

/// The plain values of a list of arguments or results.
pub open spec fn ty_views(list: Seq<Ty>) -> Seq<TyView> {
    Seq::new(list.len(), |i: int| list[i]@)
}

impl View for Function {
    type V = FunctionView;

    open spec fn view(&self) -> FunctionView {
        FunctionView {
            name: self.name@,
            inputs: ty_views(self.inputs@),
            outputs: ty_views(self.outputs@),
            pop_funcs_string: self.pop_funcs_string@,
            push_func_string: self.push_func_string@,
            args_string: self.args_string@,
        }
    }
}

/// The decimal digit `d`.
pub open spec fn digit_text(d: nat) -> Seq<char> {
    if d == 0 {
        "0"@
    } else if d == 1 {
        "1"@
    } else if d == 2 {
        "2"@
    } else if d == 3 {
        "3"@
    } else if d == 4 {
        "4"@
    } else if d == 5 {
        "5"@
    } else if d == 6 {
        "6"@
    } else if d == 7 {
        "7"@
    } else if d == 8 {
        "8"@
    } else {
        "9"@
    }
}

/// The number `n` in decimal digits, without leading zeros.
pub open spec fn decimal_text(n: nat) -> Seq<char>
    decreases n,
{
    if n < 10 {
        digit_text(n)
    } else {
        decimal_text(n / 10) + digit_text(n % 10)
    }
}

/// The parts in order, with `separator` between any two of them.
pub open spec fn joined(parts: Seq<Seq<char>>, separator: Seq<char>) -> Seq<char>
    decreases parts.len(),
{
    if parts.len() == 0 {
        Seq::empty()
    } else if parts.len() == 1 {
        parts[0]
    } else {
        joined(parts.drop_last(), separator) + separator + parts.last()
    }
}

/// The name of the variable that holds argument `i`.
pub open spec fn arg_name(i: nat) -> Seq<char> {
    "__"@ + decimal_text(i)
}

/// The statement that pops argument `i`, of a type of the glue code.
pub open spec fn pop_statement(i: nat, ty: Seq<char>) -> Seq<char> {
    "let __"@ + decimal_text(i) + " = "@ + pop_func(ty).unwrap() + "?;"@
}

/// The statement that pushes a result of a type of the glue code.
pub open spec fn push_statement(ty: Seq<char>) -> Seq<char> {
    push_func(ty).unwrap() + "?;"@
}

/// Whether every type of the list may cross the SCCS.
pub open spec fn types_known(list: Seq<TyView>) -> bool {
    forall|i: int| 0 <= i < list.len() ==> canonical_type((#[trigger] list[i]).ty) is Some
}

/// The list with the types by their names in the glue code. With
/// `mark_last`, the last one is marked as the last.
pub open spec fn processed_list(list: Seq<TyView>, mark_last: bool) -> Seq<TyView> {
    Seq::new(
        list.len(),
        |i: int|
            TyView {
                name: list[i].name,
                ty: canonical_type(list[i].ty).unwrap(),
                last: list[i].last || (mark_last && i == list.len() - 1),
            },
    )
}

/// The names of the variables that hold the first `n` arguments.
pub open spec fn arg_names(n: nat) -> Seq<Seq<char>> {
    Seq::new(n, |i: int| arg_name(i as nat))
}

/// The statements that pop the arguments of a processed list.
pub open spec fn pop_statements(list: Seq<TyView>) -> Seq<Seq<char>> {
    Seq::new(list.len(), |i: int| pop_statement(i as nat, list[i].ty))
}

/// The statements that push the results of a processed list.
pub open spec fn push_statements(list: Seq<TyView>) -> Seq<Seq<char>> {
    Seq::new(list.len(), |i: int| push_statement(list[i].ty))
}

/// The function with its types by their names in the glue code, its last
/// argument marked, and the three pieces of glue code filled in: the
/// arguments' names separated by commas, and the pop and push statements,
/// one per line.
pub open spec fn processed_function(f: FunctionView) -> FunctionView {
    let inputs = processed_list(f.inputs, true);
    let outputs = processed_list(f.outputs, false);
    FunctionView {
        name: f.name,
        inputs,
        outputs,
        pop_funcs_string: joined(pop_statements(inputs), "\n"@),
        push_func_string: joined(push_statements(outputs), "\n"@),
        args_string: joined(arg_names(inputs.len()), ","@),
    }
}

/// A type of the glue code can be popped and pushed.
pub proof fn lemma_canonical_types_move(ty: Seq<char>)
    requires
        canonical_type(ty) is Some,
    ensures
        pop_func(canonical_type(ty).unwrap()) is Some,
        push_func(canonical_type(ty).unwrap()) is Some,
{
}

fn digit(d: usize) -> (text: &'static str)
    requires
        d < 10,
    ensures
        text@ == digit_text(d as nat),
{
    if d == 0 {
        "0"
    } else if d == 1 {
        "1"
    } else if d == 2 {
        "2"
    } else if d == 3 {
        "3"
    } else if d == 4 {
        "4"
    } else if d == 5 {
        "5"
    } else if d == 6 {
        "6"
    } else if d == 7 {
        "7"
    } else if d == 8 {
        "8"
    } else {
        "9"
    }
}

/// Computes `decimal_text`.
pub fn decimal(n: usize) -> (text: String)
    ensures
        text@ == decimal_text(n as nat),
    decreases n,
{
    if n < 10 {
        String::from_str(digit(n))
    } else {
        let mut text = decimal(n / 10);
        text.append(digit(n % 10));
        text
    }
}

fn reversed<T>(list: Vec<T>) -> (back: Vec<T>)
    ensures
        back@.len() == list@.len(),
        forall|i: int| 0 <= i < back@.len() ==> back@[i] == list@[list@.len() - 1 - i],
{
    let mut rest = list;
    let mut back: Vec<T> = Vec::new();
    while rest.len() > 0
        invariant
            rest@.len() + back@.len() == list@.len(),
            forall|i: int| 0 <= i < rest@.len() ==> rest@[i] == list@[i],
            forall|i: int| 0 <= i < back@.len() ==> back@[i] == list@[list@.len() - 1 - i],
        decreases rest@.len(),
    {
        let item = rest.pop().unwrap();
        back.push(item);
    }
    back
}

/// Appends `part` to `text`, after `separator` unless `part` is the first.
fn append_part(text: &mut String, first: bool, separator: &str, part: &str)
    ensures
        final(text)@ == if first {
            old(text)@ + part@
        } else {
            old(text)@ + separator@ + part@
        },
{
    if !first {
        text.append(separator);
    }
    text.append(part);
}

fn process_list(list: Vec<Ty>, mark_last: bool) -> (out: Vec<Ty>)
    requires
        types_known(ty_views(list@)),
    ensures
        ty_views(out@) == processed_list(ty_views(list@), mark_last),
{
    let ghost given = ty_views(list@);
    let n = list.len();
    let mut rest = reversed(list);
    let mut out: Vec<Ty> = Vec::new();
    while rest.len() > 0
        invariant
            given == ty_views(list@),
            n == list@.len(),
            types_known(given),
            rest@.len() + out@.len() == n,
            forall|j: int| 0 <= j < rest@.len() ==> rest@[j] == list@[n - 1 - j],
            forall|j: int|
                0 <= j < out@.len() ==> (#[trigger] out@[j])@ == processed_list(given, mark_last)[j],
        decreases rest@.len(),
    {
        let i = out.len();
        let t = rest.pop().unwrap();
        assert(t == list@[i as int]);
        assert(t@ == given[i as int]);
        let last = t.last || (mark_last && i + 1 == n);
        let fixed = match_types(t.ty);
        out.push(Ty { name: t.name, ty: fixed, last });
    }
    assert(ty_views(out@) =~= processed_list(given, mark_last));
    out
}

fn build_args(n: usize) -> (text: String)
    ensures
        text@ == joined(arg_names(n as nat), ","@),
{
    let mut text = String::new();
    let mut i: usize = 0;
    while i < n
        invariant
            i <= n,
            text@ == joined(arg_names(i as nat), ","@),
        decreases n - i,
    {
        let mut name = String::from_str("__");
        name.append(decimal(i).as_str());
        let ghost parts = arg_names((i + 1) as nat);
        assert(parts.drop_last() =~= arg_names(i as nat));
        assert(parts.last() == arg_name(i as nat));
        assert(i == 0 ==> joined(arg_names(0), ","@) =~= Seq::<char>::empty());
        append_part(&mut text, i == 0, ",", name.as_str());
        assert(text@ =~= joined(parts, ","@));
        i += 1;
    }
    text
}

fn build_pops(inputs: &Vec<Ty>) -> (text: String)
    requires
        forall|i: int| 0 <= i < inputs@.len() ==> pop_func((#[trigger] inputs@[i]).ty@) is Some,
    ensures
        text@ == joined(pop_statements(ty_views(inputs@)), "\n"@),
{
    let ghost all = pop_statements(ty_views(inputs@));
    let mut text = String::new();
    let mut i: usize = 0;
    while i < inputs.len()
        invariant
            i <= inputs@.len(),
            all == pop_statements(ty_views(inputs@)),
            forall|j: int| 0 <= j < inputs@.len() ==> pop_func((#[trigger] inputs@[j]).ty@) is Some,
            text@ == joined(all.subrange(0, i as int), "\n"@),
        decreases inputs.len() - i,
    {
        let call = find_pop_func(&inputs[i].ty);
        let mut statement = String::from_str("let __");
        statement.append(decimal(i).as_str());
        statement.append(" = ");
        match call {
            Some(c) => {
                statement.append(c.as_str());
            },
            None => {},
        }
        statement.append("?;");
        let ghost parts = all.subrange(0, i + 1);
        assert(parts.drop_last() =~= all.subrange(0, i as int));
        assert(parts.last() == pop_statement(i as nat, inputs@[i as int].ty@));
        assert(statement@ =~= parts.last());
        assert(i == 0 ==> joined(all.subrange(0, 0), "\n"@) =~= Seq::<char>::empty());
        append_part(&mut text, i == 0, "\n", statement.as_str());
        assert(text@ =~= joined(parts, "\n"@));
        i += 1;
    }
    assert(all.subrange(0, inputs@.len() as int) =~= all);
    text
}

fn build_pushes(outputs: &Vec<Ty>) -> (text: String)
    requires
        forall|i: int| 0 <= i < outputs@.len() ==> push_func((#[trigger] outputs@[i]).ty@) is Some,
    ensures
        text@ == joined(push_statements(ty_views(outputs@)), "\n"@),
{
    let ghost all = push_statements(ty_views(outputs@));
    let mut text = String::new();
    let mut i: usize = 0;
    while i < outputs.len()
        invariant
            i <= outputs@.len(),
            all == push_statements(ty_views(outputs@)),
            forall|j: int|
                0 <= j < outputs@.len() ==> push_func((#[trigger] outputs@[j]).ty@) is Some,
            text@ == joined(all.subrange(0, i as int), "\n"@),
        decreases outputs.len() - i,
    {
        let call = find_push_func(&outputs[i].ty);
        let mut statement = String::new();
        match call {
            Some(c) => {
                statement.append(c.as_str());
            },
            None => {},
        }
        statement.append("?;");
        let ghost parts = all.subrange(0, i + 1);
        assert(parts.drop_last() =~= all.subrange(0, i as int));
        assert(parts.last() == push_statement(outputs@[i as int].ty@));
        assert(statement@ =~= parts.last());
        assert(i == 0 ==> joined(all.subrange(0, 0), "\n"@) =~= Seq::<char>::empty());
        append_part(&mut text, i == 0, "\n", statement.as_str());
        assert(text@ =~= joined(parts, "\n"@));
        i += 1;
    }
    assert(all.subrange(0, outputs@.len() as int) =~= all);
    text
}

/// Computes `processed_function`. Every type of the function must be one
/// that may cross the SCCS.
pub fn process_function(func: Function) -> (out: Function)
    requires
        types_known(func@.inputs),
        types_known(func@.outputs),
    ensures
        out@ == processed_function(func@),
{
    let ghost given = func@;
    let inputs = process_list(func.inputs, true);
    let outputs = process_list(func.outputs, false);
    proof {
        assert forall|i: int| 0 <= i < inputs@.len() implies pop_func(
            (#[trigger] inputs@[i]).ty@,
        ) is Some by {
            assert(ty_views(inputs@).len() == given.inputs.len());
            assert(inputs@[i]@ == ty_views(inputs@)[i]);
            assert(inputs@[i]@ == processed_list(given.inputs, true)[i]);
            lemma_canonical_types_move(given.inputs[i].ty);
        }
        assert forall|i: int| 0 <= i < outputs@.len() implies push_func(
            (#[trigger] outputs@[i]).ty@,
        ) is Some by {
            assert(ty_views(outputs@).len() == given.outputs.len());
            assert(outputs@[i]@ == ty_views(outputs@)[i]);
            assert(outputs@[i]@ == processed_list(given.outputs, false)[i]);
            lemma_canonical_types_move(given.outputs[i].ty);
        }
    }
    let args_string = build_args(inputs.len());
    let pop_funcs_string = build_pops(&inputs);
    let push_func_string = build_pushes(&outputs);
    Function { name: func.name, inputs, outputs, pop_funcs_string, push_func_string, args_string }
}

/// The plain values of a list of functions.
pub open spec fn function_views(list: Seq<Function>) -> Seq<FunctionView> {
    Seq::new(list.len(), |i: int| list[i]@)
}

impl ContractDefinitions {
    /// Whether every type of every function may cross the SCCS.
    pub open spec fn types_known(&self) -> bool {
        forall|i: int|
            0 <= i < self.functions@.len() ==> types_known((#[trigger] self.functions@[i])@.inputs)
                && types_known(self.functions@[i]@.outputs)
    }

    /// Prepares the description for the glue code: every function becomes
    /// its `processed_function`; the name and the list of what the contract
    /// implements stay. Every type must be one that may cross the SCCS.
    pub fn process_types(&mut self)
        requires
            old(self).types_known(),
        ensures
            final(self).name == old(self).name,
            final(self).implements == old(self).implements,
            final(self).functions@.len() == old(self).functions@.len(),
            forall|i: int|
                0 <= i < old(self).functions@.len() ==> (#[trigger] final(self).functions@[i])@
                    == processed_function(old(self).functions@[i]@),
    {
        let ghost given = self.functions@;
        let n = self.functions.len();
        let mut taken: Vec<Function> = Vec::new();
        core::mem::swap(&mut self.functions, &mut taken);
        let mut rest = reversed(taken);
        let mut out: Vec<Function> = Vec::new();
        while rest.len() > 0
            invariant
                n == given.len(),
                rest@.len() + out@.len() == n,
                forall|i: int|
                    0 <= i < given.len() ==> types_known((#[trigger] given[i])@.inputs)
                        && types_known(given[i]@.outputs),
                forall|j: int| 0 <= j < rest@.len() ==> rest@[j] == given[n - 1 - j],
                forall|j: int|
                    0 <= j < out@.len() ==> (#[trigger] out@[j])@ == processed_function(given[j]@),
            decreases rest@.len(),
        {
            let ghost i = out@.len() as int;
            let func = rest.pop().unwrap();
            assert(func == given[i]);
            out.push(process_function(func));
        }
        self.functions = out;
    }
}

/// A sample contract interface.
pub trait TestTrait {
    fn my_func(&self, _x: u8, _y: String) -> (r: u32) {
        0
    }

    fn empty_func(&mut self);
}

} // verus!
