//! The emitter: renders the recorded functions as one C# source text.

use vstd::prelude::*;
use crate::extract::HydraVisitor;
use crate::ir::{ExportFunc, ExportFuncView, TypedIdent, TypedIdentView};
use crate::tree::views;
use crate::type_map::{host_type, map_param_type, type_table, UnknownPrimitive};

verus! {

/// The comment line that opens every output, and the empty line after it.
pub open spec fn header() -> Seq<char> {
    "// Auto generated by hydra-rs\n\n"@
}

/// The line that opens the enclosing class.
pub open spec fn class_open() -> Seq<char> {
    "class RustWrapper {\n"@
}

/// The brace that closes the enclosing class.
pub open spec fn class_close() -> Seq<char> {
    "}"@
}

/// The shared library that the declarations are imported from.
pub open spec fn library_name() -> Seq<char> {
    "rlib_test1.dll"@
}

/// The import attribute line that precedes every declaration.
pub open spec fn import_line() -> Seq<char> {
    "[DllImport(\""@ + library_name() + "\")]\n"@
}

/// One rendered parameter: the host type of its source token, a space, and
/// its name. Where the table does not hold the token nothing is rendered;
/// the emitter fails on such a parameter.
pub open spec fn render_param(param: TypedIdentView) -> Seq<char> {
    match host_type(param.ty) {
        Some(host) => host + " "@ + param.name,
        None => Seq::empty(),
    }
}

/// The rendered parameters, joined by a comma and a space.
pub open spec fn render_params(params: Seq<TypedIdentView>) -> Seq<char>
    decreases params.len(),
{
    if params.len() == 0 {
        Seq::empty()
    } else if params.len() == 1 {
        render_param(params[0])
    } else {
        render_params(params.drop_last()) + ", "@ + render_param(params.last())
    }
}

/// The declaration line of one function.
pub open spec fn declaration_line(func: ExportFuncView) -> Seq<char> {
    "private static extern"@ + " "@ + func.return_type + " "@ + func.name + "("@ + render_params(
        func.params,
    ) + ");\n"@
}

/// The two lines that one function contributes.
pub open spec fn render_entry(func: ExportFuncView) -> Seq<char> {
    import_line() + declaration_line(func)
}

/// The entries of all functions, in order.
pub open spec fn render_entries(funcs: Seq<ExportFuncView>) -> Seq<char>
    decreases funcs.len(),
{
    if funcs.len() == 0 {
        Seq::empty()
    } else {
        render_entries(funcs.drop_last()) + render_entry(funcs.last())
    }
}

/// The whole output for a list of functions whose parameter types are all in
/// the table.
pub open spec fn render_file(funcs: Seq<ExportFuncView>) -> Seq<char> {
    header() + class_open() + render_entries(funcs) + class_close()
}

/// The type token of the first parameter whose type is not in the table.
pub open spec fn first_unknown_param(params: Seq<TypedIdentView>) -> Option<Seq<char>>
    decreases params.len(),
{
    if params.len() == 0 {
        None
    } else {
        match first_unknown_param(params.drop_last()) {
            Some(token) => Some(token),
            None => if host_type(params.last().ty) is None {
                Some(params.last().ty)
            } else {
                None
            },
        }
    }
}

/// The type token of the first parameter, over all functions in order, whose
/// type is not in the table.
pub open spec fn first_unknown(funcs: Seq<ExportFuncView>) -> Option<Seq<char>>
    decreases funcs.len(),
{
    if funcs.len() == 0 {
        None
    } else {
        match first_unknown(funcs.drop_last()) {
            Some(token) => Some(token),
            None => first_unknown_param(funcs.last().params),
        }
    }
}

/// What the emitter makes of a list of functions: the output, or the first
/// type token that the table does not hold.
pub open spec fn emit(funcs: Seq<ExportFuncView>) -> Result<Seq<char>, Seq<char>> {
    match first_unknown(funcs) {
        Some(token) => Err(token),
        None => Ok(render_file(funcs)),
    }
}

/// A result of the emitter as text: the output, or the offending token.
pub open spec fn result_view(r: Result<String, UnknownPrimitive>) -> Result<Seq<char>, Seq<char>> {
    match r {
        Ok(text) => Ok(text@),
        Err(e) => Err(e@),
    }
}

/// An unknown token found in a prefix is the first unknown token of the
/// whole parameter list.
proof fn lemma_unknown_param_in_prefix(params: Seq<TypedIdentView>, k: int)
    requires
        0 <= k <= params.len(),
        first_unknown_param(params.take(k)) is Some,
    ensures
        first_unknown_param(params) == first_unknown_param(params.take(k)),
    decreases params.len() - k,
{
    if k < params.len() {
        assert(params.take(k + 1).drop_last() =~= params.take(k));
        lemma_unknown_param_in_prefix(params, k + 1);
    } else {
        assert(params.take(k) =~= params);
    }
}

/// An unknown token found in a prefix is the first unknown token of the
/// whole list of functions.
proof fn lemma_unknown_in_prefix(funcs: Seq<ExportFuncView>, k: int)
    requires
        0 <= k <= funcs.len(),
        first_unknown(funcs.take(k)) is Some,
    ensures
        first_unknown(funcs) == first_unknown(funcs.take(k)),
    decreases funcs.len() - k,
{
    if k < funcs.len() {
        assert(funcs.take(k + 1).drop_last() =~= funcs.take(k));
        lemma_unknown_in_prefix(funcs, k + 1);
    } else {
        assert(funcs.take(k) =~= funcs);
    }
}

/// The entries are empty or end with a line break.
proof fn lemma_entries_end(funcs: Seq<ExportFuncView>)
    ensures
        render_entries(funcs).len() == 0 || render_entries(funcs).last() == '\n',
{
    reveal_strlit(");\n");
    if funcs.len() > 0 {
        let line = declaration_line(funcs.last());
        assert(line.last() == '\n');
    }
}

/// The rendered file begins with the header and ends with a line break and
/// one closing brace.
pub proof fn lemma_text_frame(funcs: Seq<ExportFuncView>)
    ensures
        header().is_prefix_of(render_file(funcs)),
        render_file(funcs).len() >= 2,
        render_file(funcs)[render_file(funcs).len() - 1] == '}',
        render_file(funcs)[render_file(funcs).len() - 2] == '\n',
{
    reveal_strlit("class RustWrapper {\n");
    reveal_strlit("}");
    lemma_entries_end(funcs);
    let text = render_file(funcs);
    assert(text.subrange(0, header().len() as int) =~= header());
    let body = header() + class_open() + render_entries(funcs);
    assert(body.last() == '\n') by {
        if render_entries(funcs).len() == 0 {
            assert(body =~= header() + class_open());
            assert(class_open().last() == '\n');
        }
    }
}

/// The rendered file of no functions is the header and an empty class.
pub proof fn lemma_empty_record()
    ensures
        emit(Seq::<ExportFuncView>::empty()) == Ok::<Seq<char>, Seq<char>>(
            header() + class_open() + class_close(),
        ),
        header() + class_open() + class_close()
            == "// Auto generated by hydra-rs\n\nclass RustWrapper {\n}"@,
{
    let none = Seq::<ExportFuncView>::empty();
    assert(render_file(none) =~= header() + class_open() + class_close());
    reveal_strlit("// Auto generated by hydra-rs\n\n");
    reveal_strlit("class RustWrapper {\n");
    reveal_strlit("}");
    reveal_strlit("// Auto generated by hydra-rs\n\nclass RustWrapper {\n}");
    assert(header() + class_open() + class_close()
        =~= "// Auto generated by hydra-rs\n\nclass RustWrapper {\n}"@);
}

/// A function without parameters is declared with an empty pair of round
/// brackets.
pub proof fn lemma_no_parameters(func: ExportFuncView)
    requires
        func.params.len() == 0,
    ensures
        render_params(func.params) == Seq::<char>::empty(),
        declaration_line(func) == "private static extern "@ + func.return_type + " "@ + func.name
            + "();\n"@,
{
    reveal_strlit("private static extern");
    reveal_strlit("private static extern ");
    reveal_strlit(" ");
    reveal_strlit("(");
    reveal_strlit(");\n");
    reveal_strlit("();\n");
    assert(declaration_line(func) =~= "private static extern "@ + func.return_type + " "@
        + func.name + "();\n"@);
}

/// The first unknown token is the type of a parameter that the table does
/// not hold, and the table holds the type of every parameter before it.
pub proof fn lemma_first_unknown_param(params: Seq<TypedIdentView>)
    ensures
        match first_unknown_param(params) {
            Some(token) => exists|i: int|
                {
                    &&& 0 <= i < params.len()
                    &&& (#[trigger] params[i]).ty == token
                    &&& host_type(token) is None
                    &&& forall|j: int| 0 <= j < i ==> host_type((#[trigger] params[j]).ty) is Some
                },
            None => forall|i: int| 0 <= i < params.len() ==> host_type((#[trigger] params[i]).ty) is Some,
        },
    decreases params.len(),
{
    if params.len() > 0 {
        let front = params.drop_last();
        lemma_first_unknown_param(front);
        match first_unknown_param(front) {
            Some(token) => {
                let i: int = choose|i: int|
                    {
                        &&& 0 <= i < front.len()
                        &&& (#[trigger] front[i]).ty == token
                        &&& host_type(token) is None
                        &&& forall|j: int| 0 <= j < i ==> host_type((#[trigger] front[j]).ty) is Some
                    };
                assert(params[i] == front[i]);
                assert forall|j: int| 0 <= j < i implies host_type((#[trigger] params[j]).ty) is Some by {
                    assert(params[j] == front[j]);
                }
            },
            None => {
                assert forall|j: int| 0 <= j < params.len() - 1 implies host_type(
                    (#[trigger] params[j]).ty,
                ) is Some by {
                    assert(params[j] == front[j]);
                }
                if host_type(params.last().ty) is None {
                    let i: int = params.len() - 1;
                    assert(params[i].ty == params.last().ty);
                }
            },
        }
    }
}

/// In a parameter list that renders, the type of every parameter is
/// rendered as the table's entry for its source token.
pub proof fn lemma_parameters_are_mapped(params: Seq<TypedIdentView>, i: int)
    requires
        first_unknown_param(params) is None,
        0 <= i < params.len(),
    ensures
        type_table().contains_key(params[i].ty),
        render_param(params[i]) == type_table()[params[i].ty] + " "@ + params[i].name,
{
    lemma_first_unknown_param(params);
}

/// The emitter succeeds exactly when the table holds the type of every
/// parameter of every function.
pub proof fn lemma_emit_succeeds(funcs: Seq<ExportFuncView>)
    ensures
        emit(funcs) is Ok <==> forall|k: int, i: int|
            0 <= k < funcs.len() && 0 <= i < funcs[k].params.len() ==> host_type(
                (#[trigger] funcs[k].params[i]).ty,
            ) is Some,
    decreases funcs.len(),
{
    if funcs.len() > 0 {
        let front = funcs.drop_last();
        lemma_emit_succeeds(front);
        lemma_first_unknown_param(funcs.last().params);
        if emit(funcs) is Ok {
            assert forall|k: int, i: int|
                0 <= k < funcs.len() && 0 <= i < funcs[k].params.len() implies host_type(
                (#[trigger] funcs[k].params[i]).ty,
            ) is Some by {
                if k < funcs.len() - 1 {
                    assert(funcs[k] == front[k]);
                } else {
                    assert(funcs[k] == funcs.last());
                }
            }
        } else {
            if first_unknown(front) is Some {
                let (k, i): (int, int) = choose|k: int, i: int|
                    0 <= k < front.len() && 0 <= i < front[k].params.len() && !(host_type(
                        (#[trigger] front[k].params[i]).ty,
                    ) is Some);
                assert(funcs[k] == front[k]);
                assert(host_type(funcs[k].params[i].ty) is None);
            } else {
                let k: int = funcs.len() - 1;
                assert(funcs[k] == funcs.last());
            }
        }
    }
}

/// Renders one parameter, or fails on its type token.
pub fn render_one_param(param: &TypedIdent) -> (r: Result<String, UnknownPrimitive>)
    ensures
        result_view(r) == match host_type(param@.ty) {
            Some(host) => Ok::<Seq<char>, Seq<char>>(host + " "@ + param@.name),
            None => Err(param@.ty),
        },
{
    match map_param_type(param.ty.as_str()) {
        Ok(csharp_ty) => {
            let mut text = csharp_ty;
            text.append(" ");
            text.append(param.name.as_str());
            Ok(text)
        },
        Err(e) => Err(e),
    }
}

/// Renders the parameter list of one function, or fails on the first type
/// token that the table does not hold.
pub fn render_args(args: &Vec<TypedIdent>) -> (r: Result<String, UnknownPrimitive>)
    ensures
        result_view(r) == match first_unknown_param(views(args@)) {
            Some(token) => Err::<Seq<char>, Seq<char>>(token),
            None => Ok(render_params(views(args@))),
        },
{
    let ghost params = views(args@);
    let mut text = String::new();
    let mut i: usize = 0;
    while i < args.len()
        invariant
            i <= args.len(),
            params == views(args@),
            first_unknown_param(params.take(i as int)) is None,
            text@ == render_params(params.take(i as int)),
        decreases args.len() - i,
    {
        proof {
            assert(params.take(i + 1).drop_last() =~= params.take(i as int));
            assert(params.take(i + 1).last() == args@[i as int]@);
        }
        match render_one_param(&args[i]) {
            Ok(one) => {
                if i > 0 {
                    text.append(", ");
                }
                text.append(one.as_str());
            },
            Err(e) => {
                proof {
                    lemma_unknown_param_in_prefix(params, i + 1);
                }
                return Err(e);
            },
        }
        i += 1;
    }
    assert(params.take(args.len() as int) =~= params);
    Ok(text)
}

/// Renders the declaration line of one function from its rendered
/// parameters.
fn render_declaration(func: &ExportFunc, f_args: &str) -> (line: String)
    requires
        f_args@ == render_params(func@.params),
    ensures
        line@ == declaration_line(func@),
{
    let mut line = String::from_str("private static extern");
    line.append(" ");
    line.append(func.return_type.as_str());
    line.append(" ");
    line.append(func.name.as_str());
    line.append("(");
    line.append(f_args);
    line.append(");\n");
    line
}

/// Renders the import attribute line.
fn render_import() -> (line: String)
    ensures
        line@ == import_line(),
{
    let mut line = String::from_str("[DllImport(\"");
    line.append("rlib_test1.dll");
    line.append("\")]\n");
    line
}

/// Renders the recorded functions as one C# source text: the header, the
/// class, and in it two lines for each function, in the recorded order.
/// Fails, with no text, on the first parameter type that the table does not
/// hold.
pub fn write_to_csharp(hydra: &HydraVisitor) -> (r: Result<String, UnknownPrimitive>)
    ensures
        result_view(r) == emit(hydra@),
{
    let ghost funcs = hydra@;
    let mut ret = String::from_str("// Auto generated by hydra-rs\n\n");
    ret.append("class RustWrapper {\n");
    let mut i: usize = 0;
    while i < hydra.func_decls.len()
        invariant
            i <= hydra.func_decls.len(),
            funcs == views(hydra.func_decls@),
            first_unknown(funcs.take(i as int)) is None,
            ret@ == header() + class_open() + render_entries(funcs.take(i as int)),
        decreases hydra.func_decls.len() - i,
    {
        let func = &hydra.func_decls[i];
        proof {
            assert(funcs.take(i + 1).drop_last() =~= funcs.take(i as int));
            assert(funcs.take(i + 1).last() == func@);
        }
        let f_args = match render_args(&func.params) {
            Ok(text) => text,
            Err(e) => {
                proof {
                    lemma_unknown_in_prefix(funcs, i + 1);
                }
                return Err(e);
            },
        };
        let import = render_import();
        let f_decl = render_declaration(func, f_args.as_str());
        let ghost before = ret@;
        ret.append(import.as_str());
        ret.append(f_decl.as_str());
        assert(ret@ == header() + class_open() + render_entries(funcs.take(i + 1))) by {
            let done = render_entries(funcs.take(i as int));
            assert(before + import@ + f_decl@ =~= header() + class_open() + (done + render_entry(
                func@,
            )));
        }
        i += 1;
    }
    assert(funcs.take(hydra.func_decls.len() as int) =~= funcs);
    ret.append("}");
    Ok(ret)
}

} // verus!
