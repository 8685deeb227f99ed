//! The accessor-module generator: width packing arithmetic, accessor
//! and dispatch synthesis, validation, and the compile entry point.
//!
//! Every function that emits text returns a [`Doc`] whose model is
//! pinned exactly by an `sp_`-prefixed specification function, so the
//! text of the whole generated module is a pure function of the
//! element lists and names handed to [`compile`].  Every break the
//! generator emits is a hard break, so no layout width enters the
//! rendering.

use std::collections::HashSet;
use vstd::prelude::*;
use vstd::string::StringExecFns;
use crate::doc::{Doc, DocView, vnil, vtext, vline, vnest, vcat, dec_of, layout};
use crate::doc::{nil, text, text_string, text_u32, line, push_char, render};
use crate::{Register, Memory, ElemView};

verus! {

/// The smallest multiple of 32 covering `w` bits.
pub open spec fn spec_round_width(w: int) -> int {
    if w % 32 == 0 {
        w
    } else {
        (w / 32 + 1) * 32
    }
}

/// The number of 32-bit selector chunks covering `w` bits.
pub open spec fn spec_max_sel(w: int) -> int {
    (w + 31) / 32
}

/// The size, in bits, of the local buffer backing an accessor for an
/// element `width` bits wide: `width` itself when it is a multiple of
/// 32, otherwise the next multiple of 32 above it.
pub fn round_width(width: u32) -> (r: u32)
    requires
        1 <= width <= u32::MAX - 31,
    ensures
        r == spec_round_width(width as int),
        r % 32 == 0,
        width <= r < width + 32,
{
    let base: u32 = 32;
    if width % base == 0 {
        width
    } else {
        ((width / base) + 1) * base
    }
}

/// How many 32-bit selector chunks cover `width` bits; a runtime
/// selector argument must be strictly below this count.
pub fn max_sel(width: u32) -> (r: u32)
    requires
        1 <= width,
    ensures
        r == spec_max_sel(width as int),
{
    let base: u32 = 32;
    if width % base == 0 {
        width / base
    } else {
        (width / base) + 1
    }
}

/// `s` with every dot turned into an underscore.
pub open spec fn underscored(s: Seq<char>) -> Seq<char> {
    s.map(|i: int, c: char| if c == '.' { '_' } else { c })
}

/// The name of the generated read function for the element at `path`.
pub open spec fn sp_read_name(path: Seq<char>) -> Seq<char> {
    underscored(path) + "_read"@
}

/// The name of the generated write function for the element at `path`.
pub open spec fn sp_write_name(path: Seq<char>) -> Seq<char> {
    underscored(path) + "_write"@
}

fn underscore_path(path: &str) -> (r: String)
    ensures
        r@ == underscored(path@),
{
    let n = path.unicode_len();
    let mut r = String::new();
    let mut i: usize = 0;
    while i < n
        invariant
            n == path@.len(),
            i <= n,
            r@.len() == i,
            forall|k: int|
                0 <= k < i ==> r@[k] == (if path@[k] == '.' {
                    '_'
                } else {
                    path@[k]
                }),
        decreases n - i,
    {
        let c = path.get_char(i);
        if c == '.' {
            push_char(&mut r, '_');
        } else {
            push_char(&mut r, c);
        }
        i = i + 1;
    }
    proof {
        assert(r@ =~= underscored(path@));
    }
    r
}

/// The generated read-function name for `path`: separators normalized,
/// suffix `_read`.
pub fn func_read_name(path: &str) -> (r: String)
    ensures
        r@ == sp_read_name(path@),
{
    let mut r = underscore_path(path);
    r.append("_read");
    r
}

/// The generated write-function name for `path`: separators
/// normalized, suffix `_write`.
pub fn func_write_name(path: &str) -> (r: String)
    ensures
        r@ == sp_write_name(path@),
{
    let mut r = underscore_path(path);
    r.append("_write");
    r
}

/// `var == val`.
pub open spec fn sp_expr_eq(var: Seq<char>, val: int) -> DocView {
    vcat(vcat(vcat(vcat(vtext(var), vtext(" "@)), vtext("=="@)), vtext(" "@)), vtext(dec_of(val)))
}

fn func_expr_eq(var: &str, val: u32) -> (d: Doc)
    ensures
        d@ == sp_expr_eq(var@, val as int),
{
    text(var).append(text(" ")).append(text("==")).append(text(" ")).append(text_u32(val))
}

/// `var < val`.
pub open spec fn sp_expr_lt(var: Seq<char>, val: int) -> DocView {
    vcat(vcat(vcat(vcat(vtext(var), vtext(" "@)), vtext("<"@)), vtext(" "@)), vtext(dec_of(val)))
}

fn func_expr_lt(var: &str, val: u32) -> (d: Doc)
    ensures
        d@ == sp_expr_lt(var@, val as int),
{
    text(var).append(text(" ")).append(text("<")).append(text(" ")).append(text_u32(val))
}

/// `expr` in parentheses.
pub open spec fn sp_paren(expr: DocView) -> DocView {
    vcat(vcat(vtext("("@), expr), vtext(")"@))
}

fn func_paren(expr: Doc) -> (d: Doc)
    ensures
        d@ == sp_paren(expr@),
{
    text("(").append(expr).append(text(")"))
}

/// `expr` in square brackets.
pub open spec fn sp_bracket(expr: DocView) -> DocView {
    vcat(vcat(vtext("["@), expr), vtext("]"@))
}

fn func_bracket(expr: Doc) -> (d: Doc)
    ensures
        d@ == sp_bracket(expr@),
{
    text("[").append(expr).append(text("]"))
}

/// A `begin`/`end` block with `body` nested two columns deeper.
pub open spec fn sp_begin_end(body: DocView) -> DocView {
    vcat(vcat(vnest(2, vcat(vcat(vtext("begin"@), vline()), body)), vline()), vtext("end"@))
}

fn func_begin_end(body: Doc) -> (d: Doc)
    ensures
        d@ == sp_begin_end(body@),
{
    crate::doc::nest(2, text("begin").append(line()).append(body)).append(line()).append(
        text("end"),
    )
}

/// A `module`/`endmodule` block with `body` nested two columns deeper.
pub open spec fn sp_module(name: Seq<char>, body: DocView) -> DocView {
    vcat(
        vcat(
            vnest(
                2,
                vcat(
                    vcat(
                        vcat(vcat(vcat(vtext("module"@), vtext(" "@)), vtext(name)), vtext(";"@)),
                        vline(),
                    ),
                    body,
                ),
            ),
            vline(),
        ),
        vtext("endmodule"@),
    )
}

fn func_module(name: &str, body: Doc) -> (d: Doc)
    ensures
        d@ == sp_module(name@, body@),
{
    crate::doc::nest(
        2,
        text("module").append(text(" ")).append(text(name)).append(text(";")).append(
            line(),
        ).append(body),
    ).append(line()).append(text("endmodule"))
}

/// `if (name == hid)` followed by `body` in a `begin`/`end` block.
pub open spec fn sp_ifeq(name: Seq<char>, hid: int, body: DocView) -> DocView {
    vcat(
        vcat(
            vcat(vcat(vtext("if"@), vtext(" "@)), sp_paren(sp_expr_eq(name, hid))),
            vline(),
        ),
        vcat(sp_begin_end(body), vline()),
    )
}

fn func_ifeq(name: &str, hid: u32, body: Doc) -> (d: Doc)
    ensures
        d@ == sp_ifeq(name@, hid as int, body@),
{
    text("if").append(text(" ")).append(func_paren(func_expr_eq(name, hid))).append(
        line(),
    ).append(func_begin_end(body).append(line()))
}

/// `else` followed by `body` on a fresh line.
pub open spec fn sp_else(body: DocView) -> DocView {
    vcat(vcat(vtext("else"@), vline()), body)
}

fn func_else(body: Doc) -> (d: Doc)
    ensures
        d@ == sp_else(body@),
{
    text("else").append(line()).append(body)
}

/// An `input int` argument declaration.
pub open spec fn sp_arg(name: Seq<char>) -> DocView {
    vcat(
        vcat(vcat(vcat(vcat(vtext("input"@), vtext(" "@)), vtext("int"@)), vtext(" "@)), vtext(name)),
        vtext(";"@),
    )
}

fn func_arg(name: &str) -> (d: Doc)
    ensures
        d@ == sp_arg(name@),
{
    text("input").append(text(" ")).append(text("int")).append(text(" ")).append(
        text(name),
    ).append(text(";"))
}

/// The `[width-1:0]` range of a variable declaration.
pub open spec fn sp_var_type(width: int) -> DocView {
    sp_bracket(
        vcat(
            vcat(vcat(vcat(vtext(dec_of(width)), vtext("-"@)), vtext(dec_of(1))), vtext(":"@)),
            vtext(dec_of(0)),
        ),
    )
}

fn func_var_type(width: u32) -> (d: Doc)
    ensures
        d@ == sp_var_type(width as int),
{
    func_bracket(
        text_u32(width).append(text("-")).append(text_u32(1)).append(text(":")).append(
            text_u32(0),
        ),
    )
}

/// A `reg [width-1:0] name;` variable declaration.
pub open spec fn sp_var(name: Seq<char>, width: int) -> DocView {
    vcat(
        vcat(
            vcat(vcat(vcat(vtext("reg"@), vtext(" "@)), sp_var_type(width)), vtext(" "@)),
            vtext(name),
        ),
        vtext(";"@),
    )
}

fn func_var(name: &str, width: u32) -> (d: Doc)
    ensures
        d@ == sp_var(name@, width as int),
{
    text("reg").append(text(" ")).append(func_var_type(width)).append(text(" ")).append(
        text(name),
    ).append(text(";"))
}

/// A `[lhs+:rhs]` part-select index.
pub open spec fn sp_index(lhs: DocView, rhs: DocView) -> DocView {
    sp_bracket(vcat(vcat(lhs, vtext("+:"@)), rhs))
}

fn func_index(lhs: Doc, rhs: Doc) -> (d: Doc)
    ensures
        d@ == sp_index(lhs@, rhs@),
{
    func_bracket(lhs.append(text("+:")).append(rhs))
}

/// The `[name*32+:32]` part-select picking one 32-bit chunk.
pub open spec fn sp_index_var(name: Seq<char>) -> DocView {
    sp_bracket(
        vcat(
            vcat(
                vcat(vcat(vtext(name), vtext("*"@)), vtext(dec_of(32))),
                vtext("+:"@),
            ),
            vtext(dec_of(32)),
        ),
    )
}

fn func_index_var(name: &str) -> (d: Doc)
    ensures
        d@ == sp_index_var(name@),
{
    let base: u32 = 32;
    func_bracket(
        text(name).append(text("*")).append(text_u32(base)).append(text("+:")).append(
            text_u32(base),
        ),
    )
}

/// The `lhs = rhs;` assignment statement.
pub open spec fn sp_assign(lhs: DocView, rhs: DocView) -> DocView {
    vcat(lhs, vcat(vcat(vcat(vcat(vtext(" "@), vtext("="@)), vtext(" "@)), rhs), vtext(";"@)))
}

fn func_assign(lhs: Doc, rhs: Doc) -> (d: Doc)
    ensures
        d@ == sp_assign(lhs@, rhs@),
{
    let fmt = text(" ").append(text("=")).append(text(" ")).append(rhs).append(text(";"));
    lhs.append(fmt)
}

/// The `return value;` statement.
pub open spec fn sp_return(value: DocView) -> DocView {
    vcat(vcat(vcat(vtext("return"@), vtext(" "@)), value), vtext(";"@))
}

fn func_return(value: Doc) -> (d: Doc)
    ensures
        d@ == sp_return(value@),
{
    text("return").append(text(" ")).append(value).append(text(";"))
}

/// A bare `value;` statement evaluated for its effect.
pub open spec fn sp_eval(value: DocView) -> DocView {
    vcat(vcat(vnil(), value), vtext(";"@))
}

fn func_eval(value: Doc) -> (d: Doc)
    ensures
        d@ == sp_eval(value@),
{
    nil().append(value).append(text(";"))
}

/// `value` in double quotes.
pub open spec fn sp_str(value: Seq<char>) -> DocView {
    vcat(vcat(vtext("\""@), vtext(value)), vtext("\""@))
}

fn func_str(value: &str) -> (d: Doc)
    ensures
        d@ == sp_str(value@),
{
    text("\"").append(text(value)).append(text("\""))
}

/// The `$error("msg");` diagnostic statement.
pub open spec fn sp_error(msg: Seq<char>) -> DocView {
    vcat(vcat(vtext("$error"@), sp_paren(sp_str(msg))), vtext(";"@))
}

fn func_error(msg: &str) -> (d: Doc)
    ensures
        d@ == sp_error(msg@),
{
    text("$error").append(func_paren(func_str(msg))).append(text(";"))
}

/// An `assert (expr) else $error("msg");` runtime check.
pub open spec fn sp_assert(expr: DocView, error_msg: Seq<char>) -> DocView {
    vcat(
        vcat(
            vcat(
                vcat(vcat(vcat(vtext("assert"@), vtext(" "@)), sp_paren(expr)), vtext(" "@)),
                vtext("else"@),
            ),
            vtext(" "@),
        ),
        sp_error(error_msg),
    )
}

fn func_assert(expr: Doc, error_msg: &str) -> (d: Doc)
    ensures
        d@ == sp_assert(expr@, error_msg@),
{
    text("assert").append(text(" ")).append(func_paren(expr)).append(text(" ")).append(
        text("else"),
    ).append(text(" ")).append(func_error(error_msg))
}

/// The bounds check rejecting a selector at or above `val`, with a
/// diagnostic naming the offending argument.
pub open spec fn sp_assert_lt(var: Seq<char>, val: int) -> DocView {
    sp_assert(sp_expr_lt(var, val), var + " out of bounds"@)
}

fn func_assert_lt(var: &str, val: u32) -> (d: Doc)
    ensures
        d@ == sp_assert_lt(var@, val as int),
{
    let mut msg = var.to_owned();
    msg.append(" out of bounds");
    func_assert(func_expr_lt(var, val), msg.as_str())
}

/// A `function`/`endfunction` block: header with return type and
/// name, then `body` nested two columns deeper.
pub open spec fn sp_body(name: Seq<char>, rtype: Seq<char>, body: DocView) -> DocView {
    vcat(
        vcat(
            vnest(
                2,
                vcat(
                    vcat(
                        vcat(
                            vcat(
                                vcat(vcat(vtext("function"@), vtext(" "@)), vtext(rtype)),
                                vtext(" "@),
                            ),
                            vtext(name),
                        ),
                        vtext(";"@),
                    ),
                    vcat(vline(), body),
                ),
            ),
            vline(),
        ),
        vtext("endfunction"@),
    )
}

fn func_body(name: &str, rtype: &str, body: Doc) -> (d: Doc)
    ensures
        d@ == sp_body(name@, rtype@, body@),
{
    crate::doc::nest(
        2,
        text("function").append(text(" ")).append(text(rtype)).append(text(" ")).append(
            text(name),
        ).append(text(";")).append(line().append(body)),
    ).append(line()).append(text("endfunction"))
}

/// A function whose body is the argument prologue followed by `stmt`
/// in a `begin`/`end` block.
pub open spec fn sp_func(name: Seq<char>, rtype: Seq<char>, prologue: DocView, stmt: DocView) -> DocView {
    sp_body(name, rtype, vcat(vcat(prologue, vline()), sp_begin_end(stmt)))
}

fn func_(name: &str, rtype: &str, prologue: Doc, stmt: Doc) -> (d: Doc)
    ensures
        d@ == sp_func(name@, rtype@, prologue@, stmt@),
{
    let body = prologue.append(line()).append(func_begin_end(stmt));
    func_body(name, rtype, body)
}

/// An `int`-returning generated function named after `name`.
pub open spec fn sp_func_read(name: Seq<char>, prologue: DocView, body: DocView) -> DocView {
    sp_func(sp_read_name(name), "int"@, prologue, body)
}

fn func_read(name: &str, prologue: Doc, body: Doc) -> (d: Doc)
    ensures
        d@ == sp_func_read(name@, prologue@, body@),
{
    let path = func_read_name(name);
    func_(path.as_str(), "int", prologue, body)
}

/// A `void` generated function named after `name`.
pub open spec fn sp_func_write(name: Seq<char>, prologue: DocView, body: DocView) -> DocView {
    sp_func(sp_write_name(name), "void"@, prologue, body)
}

fn func_write(name: &str, prologue: Doc, body: Doc) -> (d: Doc)
    ensures
        d@ == sp_func_write(name@, prologue@, body@),
{
    let path = func_write_name(name);
    func_(path.as_str(), "void", prologue, body)
}

/// The read accessor for the register at `path`: guard the selector,
/// zero a buffer of the rounded width, copy the low `width` bits of
/// the register in, return the selected 32-bit chunk.
pub open spec fn sp_read_register(path: Seq<char>, width: int) -> DocView {
    let rw = spec_round_width(width);
    let prologue = vcat(vcat(sp_arg("sel"@), vline()), sp_var("data"@, rw));
    let rval = vcat(vtext("data"@), sp_index_var("sel"@));
    let a = vcat(vtext("data"@), sp_index(vtext(dec_of(0)), vtext(dec_of(rw))));
    let b = vcat(vtext("data"@), sp_index(vtext(dec_of(0)), vtext(dec_of(width))));
    let body = vcat(
        vcat(
            vcat(
                vcat(
                    vcat(vcat(sp_assert_lt("sel"@, spec_max_sel(width)), vline()), sp_assign(a, vtext(dec_of(0)))),
                    vline(),
                ),
                sp_assign(b, vtext(path)),
            ),
            vline(),
        ),
        sp_return(rval),
    );
    sp_func_read(path, prologue, body)
}

/// Emit the read accessor for a register.
pub fn func_read_register(path: &str, width: u32) -> (d: Doc)
    requires
        1 <= width <= u32::MAX - 31,
    ensures
        d@ == sp_read_register(path@, width as int),
{
    let rw = round_width(width);
    let ms = max_sel(width);
    let prologue = func_arg("sel").append(line()).append(func_var("data", rw));
    let rval = text("data").append(func_index_var("sel"));
    let a = text("data").append(func_index(text_u32(0), text_u32(rw)));
    let b = text("data").append(func_index(text_u32(0), text_u32(width)));
    let body = func_assert_lt("sel", ms).append(line()).append(
        func_assign(a, text_u32(0)),
    ).append(line()).append(func_assign(b, text(path))).append(line()).append(func_return(rval));
    func_read(path, prologue, body)
}

/// The write accessor for the register at `path`: guard the selector,
/// load the register into a zeroed buffer, overwrite the selected
/// chunk with `value`, copy the low `width` bits back.
pub open spec fn sp_write_register(path: Seq<char>, width: int) -> DocView {
    let rw = spec_round_width(width);
    let prologue = vcat(
        vcat(vcat(vcat(sp_arg("sel"@), vline()), sp_arg("value"@)), vline()),
        sp_var("data"@, rw),
    );
    let a = vcat(vtext("data"@), sp_index(vtext(dec_of(0)), vtext(dec_of(rw))));
    let b = vcat(vtext("data"@), sp_index(vtext(dec_of(0)), vtext(dec_of(width))));
    let c = vcat(vtext("data"@), sp_index_var("sel"@));
    let body = vcat(
        vcat(
            vcat(
                vcat(
                    vcat(
                        vcat(
                            vcat(vcat(sp_assert_lt("sel"@, spec_max_sel(width)), vline()), sp_assign(a, vtext(dec_of(0)))),
                            vline(),
                        ),
                        sp_assign(b, vtext(path)),
                    ),
                    vline(),
                ),
                sp_assign(c, vtext("value"@)),
            ),
            vline(),
        ),
        sp_assign(vtext(path), b),
    );
    sp_func_write(path, prologue, body)
}

/// Emit the write accessor for a register.
pub fn func_write_register(path: &str, width: u32) -> (d: Doc)
    requires
        1 <= width <= u32::MAX - 31,
    ensures
        d@ == sp_write_register(path@, width as int),
{
    let rw = round_width(width);
    let ms = max_sel(width);
    let prologue = func_arg("sel").append(line()).append(func_arg("value")).append(line()).append(
        func_var("data", rw),
    );
    let a = text("data").append(func_index(text_u32(0), text_u32(rw)));
    let b = text("data").append(func_index(text_u32(0), text_u32(width)));
    let b2 = text("data").append(func_index(text_u32(0), text_u32(width)));
    let c = text("data").append(func_index_var("sel"));
    let body = func_assert_lt("sel", ms).append(line()).append(
        func_assign(a, text_u32(0)),
    ).append(line()).append(func_assign(b, text(path))).append(line()).append(
        func_assign(c, text("value")),
    ).append(line()).append(func_assign(text(path), b2));
    func_write(path, prologue, body)
}

/// The element reference `path[addr]` of a memory access.
pub open spec fn sp_mem_addr(path: Seq<char>) -> Seq<char> {
    path + "["@ + "addr"@ + "]"@
}

fn mem_addr(path: &str) -> (r: String)
    ensures
        r@ == sp_mem_addr(path@),
{
    let mut r = path.to_owned();
    r.append("[");
    r.append("addr");
    r.append("]");
    r
}

/// The read accessor for the memory at `path`: like a register read,
/// on element `path[addr]`.
pub open spec fn sp_read_memory(path: Seq<char>, width: int) -> DocView {
    let rw = spec_round_width(width);
    let prologue = vcat(
        vcat(vcat(vcat(sp_arg("addr"@), vline()), sp_arg("sel"@)), vline()),
        sp_var("data"@, rw),
    );
    let rval = vcat(vtext("data"@), sp_index_var("sel"@));
    let a = vcat(vtext("data"@), sp_index(vtext(dec_of(0)), vtext(dec_of(rw))));
    let b = vcat(vtext("data"@), sp_index(vtext(dec_of(0)), vtext(dec_of(width))));
    let body = vcat(
        vcat(
            vcat(
                vcat(
                    vcat(vcat(sp_assert_lt("sel"@, spec_max_sel(width)), vline()), sp_assign(a, vtext(dec_of(0)))),
                    vline(),
                ),
                sp_assign(b, vtext(sp_mem_addr(path))),
            ),
            vline(),
        ),
        sp_return(rval),
    );
    sp_func_read(path, prologue, body)
}

/// Emit the read accessor for a memory.
pub fn func_read_memory(path: &str, width: u32) -> (d: Doc)
    requires
        1 <= width <= u32::MAX - 31,
    ensures
        d@ == sp_read_memory(path@, width as int),
{
    let rw = round_width(width);
    let ms = max_sel(width);
    let elem = mem_addr(path);
    let prologue = func_arg("addr").append(line()).append(func_arg("sel")).append(line()).append(
        func_var("data", rw),
    );
    let rval = text("data").append(func_index_var("sel"));
    let a = text("data").append(func_index(text_u32(0), text_u32(rw)));
    let b = text("data").append(func_index(text_u32(0), text_u32(width)));
    let body = func_assert_lt("sel", ms).append(line()).append(
        func_assign(a, text_u32(0)),
    ).append(line()).append(func_assign(b, text(elem.as_str()))).append(line()).append(
        func_return(rval),
    );
    func_read(path, prologue, body)
}

/// The write accessor for the memory at `path`: like a register
/// write, on element `path[addr]`.
pub open spec fn sp_write_memory(path: Seq<char>, width: int) -> DocView {
    let rw = spec_round_width(width);
    let prologue = vcat(
        vcat(
            vcat(vcat(vcat(vcat(sp_arg("addr"@), vline()), sp_arg("sel"@)), vline()), sp_arg("value"@)),
            vline(),
        ),
        sp_var("data"@, rw),
    );
    let a = vcat(vtext("data"@), sp_index(vtext(dec_of(0)), vtext(dec_of(rw))));
    let b = vcat(vtext("data"@), sp_index(vtext(dec_of(0)), vtext(dec_of(width))));
    let c = vcat(vtext("data"@), sp_index_var("sel"@));
    let body = vcat(
        vcat(
            vcat(
                vcat(
                    vcat(
                        vcat(
                            vcat(vcat(sp_assert_lt("sel"@, spec_max_sel(width)), vline()), sp_assign(a, vtext(dec_of(0)))),
                            vline(),
                        ),
                        sp_assign(b, vtext(sp_mem_addr(path))),
                    ),
                    vline(),
                ),
                sp_assign(c, vtext("value"@)),
            ),
            vline(),
        ),
        sp_assign(vtext(sp_mem_addr(path)), b),
    );
    sp_func_write(path, prologue, body)
}

/// Emit the write accessor for a memory.
pub fn func_write_memory(path: &str, width: u32) -> (d: Doc)
    requires
        1 <= width <= u32::MAX - 31,
    ensures
        d@ == sp_write_memory(path@, width as int),
{
    let rw = round_width(width);
    let ms = max_sel(width);
    let elem = mem_addr(path);
    let elem2 = mem_addr(path);
    let prologue = func_arg("addr").append(line()).append(func_arg("sel")).append(line()).append(
        func_arg("value"),
    ).append(line()).append(func_var("data", rw));
    let a = text("data").append(func_index(text_u32(0), text_u32(rw)));
    let b = text("data").append(func_index(text_u32(0), text_u32(width)));
    let b2 = text("data").append(func_index(text_u32(0), text_u32(width)));
    let c = text("data").append(func_index_var("sel"));
    let body = func_assert_lt("sel", ms).append(line()).append(
        func_assign(a, text_u32(0)),
    ).append(line()).append(func_assign(b, text(elem.as_str()))).append(line()).append(
        func_assign(c, text("value")),
    ).append(line()).append(func_assign(text(elem2.as_str()), b2));
    func_write(path, prologue, body)
}

/// The arguments of a call, separated by `", "`.
pub open spec fn sp_arg_list(args: Seq<Seq<char>>) -> DocView
    decreases args.len(),
{
    if args.len() == 0 {
        vnil()
    } else if args.len() == 1 {
        vtext(args[0])
    } else {
        vcat(vcat(sp_arg_list(args.drop_last()), vtext(", "@)), vtext(args.last()))
    }
}

fn arg_list(args: &Vec<&str>) -> (d: Doc)
    ensures
        d@ == sp_arg_list(args.deep_view()),
{
    let ghost dv = args.deep_view();
    if args.len() == 0 {
        let d = nil();
        proof {
            assert(dv.len() == 0);
        }
        d
    } else {
        let mut d = text(args[0]);
        let mut i: usize = 1;
        proof {
            assert(dv.take(1) =~= seq![dv[0]]);
            assert(d@ == sp_arg_list(dv.take(1)));
        }
        while i < args.len()
            invariant
                1 <= i <= args.len(),
                dv == args.deep_view(),
                dv.len() == args.len(),
                d@ == sp_arg_list(dv.take(i as int)),
            decreases args.len() - i,
        {
            d = d.append(text(", ")).append(text(args[i]));
            proof {
                assert(dv.take(i + 1).drop_last() =~= dv.take(i as int));
                assert(dv.take(i + 1).last() == dv[i as int]);
            }
            i = i + 1;
        }
        proof {
            assert(dv.take(args.len() as int) =~= dv);
        }
        d
    }
}

/// A call of the read function for `prefix` with the given arguments.
pub open spec fn sp_read_signature(prefix: Seq<char>, args: Seq<Seq<char>>) -> DocView {
    vcat(vtext(sp_read_name(prefix)), sp_paren(sp_arg_list(args)))
}

fn func_read_signature(prefix: &str, args: &Vec<&str>) -> (d: Doc)
    ensures
        d@ == sp_read_signature(prefix@, args.deep_view()),
{
    let func_name = func_read_name(prefix);
    text_string(func_name).append(func_paren(arg_list(args)))
}

/// A call of the write function for `prefix` with the given arguments.
pub open spec fn sp_write_signature(prefix: Seq<char>, args: Seq<Seq<char>>) -> DocView {
    vcat(vtext(sp_write_name(prefix)), sp_paren(sp_arg_list(args)))
}

fn func_write_signature(prefix: &str, args: &Vec<&str>) -> (d: Doc)
    ensures
        d@ == sp_write_signature(prefix@, args.deep_view()),
{
    let func_name = func_write_name(prefix);
    text_string(func_name).append(func_paren(arg_list(args)))
}

/// One branch of the register-read dispatch chain: on a matching id,
/// return the accessor's value.  Every branch after the first opens
/// with `else`.
pub open spec fn sp_entry_read_register(r: ElemView, first: bool) -> DocView {
    let e = sp_ifeq("hid"@, r.hid as int, sp_return(sp_read_signature(r.path, seq!["sel"@])));
    if first {
        e
    } else {
        sp_else(e)
    }
}

/// One branch of the register-write dispatch chain.
pub open spec fn sp_entry_write_register(r: ElemView, first: bool) -> DocView {
    let e = sp_ifeq(
        "hid"@,
        r.hid as int,
        sp_eval(sp_write_signature(r.path, seq!["sel"@, "value"@])),
    );
    if first {
        e
    } else {
        sp_else(e)
    }
}

/// One branch of the memory-read dispatch chain.
pub open spec fn sp_entry_read_memory(m: ElemView, first: bool) -> DocView {
    let e = sp_ifeq("hid"@, m.hid as int, sp_return(sp_read_signature(m.path, seq!["addr"@, "sel"@])));
    if first {
        e
    } else {
        sp_else(e)
    }
}

/// One branch of the memory-write dispatch chain.
pub open spec fn sp_entry_write_memory(m: ElemView, first: bool) -> DocView {
    let e = sp_ifeq(
        "hid"@,
        m.hid as int,
        sp_eval(sp_write_signature(m.path, seq!["addr"@, "sel"@, "value"@])),
    );
    if first {
        e
    } else {
        sp_else(e)
    }
}

/// The register-read dispatch chain, one branch per register in list
/// order.
pub open spec fn sp_chain_read_register(regs: Seq<ElemView>) -> DocView
    decreases regs.len(),
{
    if regs.len() == 0 {
        vnil()
    } else {
        vcat(
            sp_chain_read_register(regs.drop_last()),
            sp_entry_read_register(regs.last(), regs.len() == 1),
        )
    }
}

/// The register-write dispatch chain.
pub open spec fn sp_chain_write_register(regs: Seq<ElemView>) -> DocView
    decreases regs.len(),
{
    if regs.len() == 0 {
        vnil()
    } else {
        vcat(
            sp_chain_write_register(regs.drop_last()),
            sp_entry_write_register(regs.last(), regs.len() == 1),
        )
    }
}

/// The memory-read dispatch chain.
pub open spec fn sp_chain_read_memory(mems: Seq<ElemView>) -> DocView
    decreases mems.len(),
{
    if mems.len() == 0 {
        vnil()
    } else {
        vcat(
            sp_chain_read_memory(mems.drop_last()),
            sp_entry_read_memory(mems.last(), mems.len() == 1),
        )
    }
}

/// The memory-write dispatch chain.
pub open spec fn sp_chain_write_memory(mems: Seq<ElemView>) -> DocView
    decreases mems.len(),
{
    if mems.len() == 0 {
        vnil()
    } else {
        vcat(
            sp_chain_write_memory(mems.drop_last()),
            sp_entry_write_memory(mems.last(), mems.len() == 1),
        )
    }
}

/// The register-read entry point: dispatch on `hid` through the
/// conditional chain; an empty register list leaves one unconditional
/// diagnostic, a non-empty one ends in an `else` diagnostic.
///
/// Note a latent gap in the generated code: the diagnostic branch of a
/// read dispatch emits no `return`, so it relies on the host HDL
/// runtime to treat a missing return as fatal; a permissive runtime
/// could hand back stale data after the diagnostic.
pub open spec fn sp_switch_read_register(prefix: Seq<char>, regs: Seq<ElemView>) -> DocView {
    let prologue = vcat(vcat(sp_arg("hid"@), vline()), sp_arg("sel"@));
    let tail = if regs.len() == 0 {
        sp_error("there is no register declared"@)
    } else {
        sp_else(sp_begin_end(sp_error("wrong hid for reading register"@)))
    };
    sp_func_read(prefix, prologue, vcat(sp_chain_read_register(regs), tail))
}

/// Emit the register-read entry point.
pub fn func_switch_read_register(prefix: &str, reg: &Vec<Register>) -> (d: Doc)
    ensures
        d@ == sp_switch_read_register(prefix@, reg.deep_view()),
{
    let ghost dv = reg.deep_view();
    let prologue = func_arg("hid").append(line()).append(func_arg("sel"));
    let mut chain = nil();
    let mut i: usize = 0;
    proof {
        assert(dv.take(0) =~= Seq::<ElemView>::empty());
    }
    while i < reg.len()
        invariant
            i <= reg.len(),
            dv == reg.deep_view(),
            dv.len() == reg.len(),
            chain@ == sp_chain_read_register(dv.take(i as int)),
        decreases reg.len() - i,
    {
        let vargs: Vec<&str> = vec!["sel"];
        let r = &reg[i];
        let entry = func_ifeq(
            "hid",
            r.hid,
            func_return(func_read_signature(r.path.as_str(), &vargs)),
        );
        proof {
            assert(vargs.deep_view() =~= seq!["sel"@]);
            assert(dv.take(i + 1).drop_last() =~= dv.take(i as int));
            assert(dv.take(i + 1).last() == dv[i as int]);
        }
        if i == 0 {
            chain = chain.append(entry);
        } else {
            chain = chain.append(func_else(entry));
        }
        i = i + 1;
    }
    proof {
        assert(dv.take(reg.len() as int) =~= dv);
    }
    let tail = if reg.len() == 0 {
        func_error("there is no register declared")
    } else {
        func_else(func_begin_end(func_error("wrong hid for reading register")))
    };
    func_read(prefix, prologue, chain.append(tail))
}

/// The register-write entry point.
pub open spec fn sp_switch_write_register(prefix: Seq<char>, regs: Seq<ElemView>) -> DocView {
    let prologue = vcat(vcat(vcat(vcat(sp_arg("hid"@), vline()), sp_arg("sel"@)), vline()), sp_arg("value"@));
    let tail = if regs.len() == 0 {
        sp_error("there is no register declared"@)
    } else {
        sp_else(sp_begin_end(sp_error("wrong hid for writing register"@)))
    };
    sp_func_write(prefix, prologue, vcat(sp_chain_write_register(regs), tail))
}

/// Emit the register-write entry point.
pub fn func_switch_write_register(prefix: &str, reg: &Vec<Register>) -> (d: Doc)
    ensures
        d@ == sp_switch_write_register(prefix@, reg.deep_view()),
{
    let ghost dv = reg.deep_view();
    let prologue = func_arg("hid").append(line()).append(func_arg("sel")).append(line()).append(
        func_arg("value"),
    );
    let mut chain = nil();
    let mut i: usize = 0;
    proof {
        assert(dv.take(0) =~= Seq::<ElemView>::empty());
    }
    while i < reg.len()
        invariant
            i <= reg.len(),
            dv == reg.deep_view(),
            dv.len() == reg.len(),
            chain@ == sp_chain_write_register(dv.take(i as int)),
        decreases reg.len() - i,
    {
        let vargs: Vec<&str> = vec!["sel", "value"];
        let r = &reg[i];
        let entry = func_ifeq(
            "hid",
            r.hid,
            func_eval(func_write_signature(r.path.as_str(), &vargs)),
        );
        proof {
            assert(vargs.deep_view() =~= seq!["sel"@, "value"@]);
            assert(dv.take(i + 1).drop_last() =~= dv.take(i as int));
            assert(dv.take(i + 1).last() == dv[i as int]);
        }
        if i == 0 {
            chain = chain.append(entry);
        } else {
            chain = chain.append(func_else(entry));
        }
        i = i + 1;
    }
    proof {
        assert(dv.take(reg.len() as int) =~= dv);
    }
    let tail = if reg.len() == 0 {
        func_error("there is no register declared")
    } else {
        func_else(func_begin_end(func_error("wrong hid for writing register")))
    };
    func_write(prefix, prologue, chain.append(tail))
}

/// The memory-read entry point.  Its diagnostic branch has the same
/// missing-return gap as the register-read entry point.
pub open spec fn sp_switch_read_memory(prefix: Seq<char>, mems: Seq<ElemView>) -> DocView {
    let prologue = vcat(vcat(vcat(vcat(sp_arg("hid"@), vline()), sp_arg("addr"@)), vline()), sp_arg("sel"@));
    let tail = if mems.len() == 0 {
        sp_error("there is no memory declared"@)
    } else {
        sp_else(sp_begin_end(sp_error("wrong hid for reading memory"@)))
    };
    sp_func_read(prefix, prologue, vcat(sp_chain_read_memory(mems), tail))
}

/// Emit the memory-read entry point.
pub fn func_switch_read_memory(prefix: &str, mem: &Vec<Memory>) -> (d: Doc)
    ensures
        d@ == sp_switch_read_memory(prefix@, mem.deep_view()),
{
    let ghost dv = mem.deep_view();
    let prologue = func_arg("hid").append(line()).append(func_arg("addr")).append(line()).append(
        func_arg("sel"),
    );
    let mut chain = nil();
    let mut i: usize = 0;
    proof {
        assert(dv.take(0) =~= Seq::<ElemView>::empty());
    }
    while i < mem.len()
        invariant
            i <= mem.len(),
            dv == mem.deep_view(),
            dv.len() == mem.len(),
            chain@ == sp_chain_read_memory(dv.take(i as int)),
        decreases mem.len() - i,
    {
        let vargs: Vec<&str> = vec!["addr", "sel"];
        let m = &mem[i];
        let entry = func_ifeq(
            "hid",
            m.hid,
            func_return(func_read_signature(m.path.as_str(), &vargs)),
        );
        proof {
            assert(vargs.deep_view() =~= seq!["addr"@, "sel"@]);
            assert(dv.take(i + 1).drop_last() =~= dv.take(i as int));
            assert(dv.take(i + 1).last() == dv[i as int]);
        }
        if i == 0 {
            chain = chain.append(entry);
        } else {
            chain = chain.append(func_else(entry));
        }
        i = i + 1;
    }
    proof {
        assert(dv.take(mem.len() as int) =~= dv);
    }
    let tail = if mem.len() == 0 {
        func_error("there is no memory declared")
    } else {
        func_else(func_begin_end(func_error("wrong hid for reading memory")))
    };
    func_read(prefix, prologue, chain.append(tail))
}

/// The memory-write entry point.
pub open spec fn sp_switch_write_memory(prefix: Seq<char>, mems: Seq<ElemView>) -> DocView {
    let prologue = vcat(
        vcat(vcat(vcat(vcat(vcat(sp_arg("hid"@), vline()), sp_arg("addr"@)), vline()), sp_arg("sel"@)), vline()),
        sp_arg("value"@),
    );
    let tail = if mems.len() == 0 {
        sp_error("there is no memory declared"@)
    } else {
        sp_else(sp_begin_end(sp_error("wrong hid for writing memory"@)))
    };
    sp_func_write(prefix, prologue, vcat(sp_chain_write_memory(mems), tail))
}

/// Emit the memory-write entry point.
pub fn func_switch_write_memory(prefix: &str, mem: &Vec<Memory>) -> (d: Doc)
    ensures
        d@ == sp_switch_write_memory(prefix@, mem.deep_view()),
{
    let ghost dv = mem.deep_view();
    let prologue = func_arg("hid").append(line()).append(func_arg("addr")).append(line()).append(
        func_arg("sel"),
    ).append(line()).append(func_arg("value"));
    let mut chain = nil();
    let mut i: usize = 0;
    proof {
        assert(dv.take(0) =~= Seq::<ElemView>::empty());
    }
    while i < mem.len()
        invariant
            i <= mem.len(),
            dv == mem.deep_view(),
            dv.len() == mem.len(),
            chain@ == sp_chain_write_memory(dv.take(i as int)),
        decreases mem.len() - i,
    {
        let vargs: Vec<&str> = vec!["addr", "sel", "value"];
        let m = &mem[i];
        let entry = func_ifeq(
            "hid",
            m.hid,
            func_eval(func_write_signature(m.path.as_str(), &vargs)),
        );
        proof {
            assert(vargs.deep_view() =~= seq!["addr"@, "sel"@, "value"@]);
            assert(dv.take(i + 1).drop_last() =~= dv.take(i as int));
            assert(dv.take(i + 1).last() == dv[i as int]);
        }
        if i == 0 {
            chain = chain.append(entry);
        } else {
            chain = chain.append(func_else(entry));
        }
        i = i + 1;
    }
    proof {
        assert(dv.take(mem.len() as int) =~= dv);
    }
    let tail = if mem.len() == 0 {
        func_error("there is no memory declared")
    } else {
        func_else(func_begin_end(func_error("wrong hid for writing memory")))
    };
    func_write(prefix, prologue, chain.append(tail))
}

/// The cross-language export declaration for a generated function.
pub open spec fn sp_export(name: Seq<char>) -> DocView {
    vcat(
        vcat(
            vcat(
                vcat(
                    vcat(vcat(vcat(vtext("export"@), vtext(" "@)), sp_str("DPI-C"@)), vtext(" "@)),
                    vtext("function"@),
                ),
                vtext(" "@),
            ),
            vtext(name),
        ),
        vtext(";"@),
    )
}

fn func_export(name: &str) -> (d: Doc)
    ensures
        d@ == sp_export(name@),
{
    text("export").append(text(" ")).append(func_str("DPI-C")).append(text(" ")).append(
        text("function"),
    ).append(text(" ")).append(text(name)).append(text(";"))
}

/// The read and write accessors of one register, in sequence.
pub open spec fn sp_register_doc(r: ElemView) -> DocView {
    vcat(vcat(sp_read_register(r.path, r.width as int), vline()), sp_write_register(r.path, r.width as int))
}

impl Register {
    /// Emit the accessor pair for this register.
    pub fn to_doc(&self) -> (d: Doc)
        requires
            1 <= self.width <= u32::MAX - 31,
        ensures
            d@ == sp_register_doc(self@),
    {
        func_read_register(self.path.as_str(), self.width).append(line()).append(
            func_write_register(self.path.as_str(), self.width),
        )
    }
}

/// The read and write accessors of one memory, in sequence.
pub open spec fn sp_memory_doc(m: ElemView) -> DocView {
    vcat(vcat(sp_read_memory(m.path, m.width as int), vline()), sp_write_memory(m.path, m.width as int))
}

impl Memory {
    /// Emit the accessor pair for this memory.
    pub fn to_doc(&self) -> (d: Doc)
        requires
            1 <= self.width <= u32::MAX - 31,
        ensures
            d@ == sp_memory_doc(self@),
    {
        func_read_memory(self.path.as_str(), self.width).append(line()).append(
            func_write_memory(self.path.as_str(), self.width),
        )
    }
}

/// `acc` extended with the accessor pair of every register, each pair
/// followed by a line break, in list order.
pub open spec fn sp_fold_register_accessors(acc: DocView, regs: Seq<ElemView>) -> DocView
    decreases regs.len(),
{
    if regs.len() == 0 {
        acc
    } else {
        vcat(vcat(sp_fold_register_accessors(acc, regs.drop_last()), sp_register_doc(regs.last())), vline())
    }
}

/// `acc` extended with the accessor pair of every memory.
pub open spec fn sp_fold_memory_accessors(acc: DocView, mems: Seq<ElemView>) -> DocView
    decreases mems.len(),
{
    if mems.len() == 0 {
        acc
    } else {
        vcat(vcat(sp_fold_memory_accessors(acc, mems.drop_last()), sp_memory_doc(mems.last())), vline())
    }
}

/// Every width is positive and small enough that the rounded buffer
/// size still fits the 32-bit arithmetic of the generator.
pub open spec fn widths_ok(s: Seq<ElemView>) -> bool {
    forall|i: int| 0 <= i < s.len() ==> 1 <= #[trigger] s[i].width <= u32::MAX - 31
}

/// One module-generation request: the module's name, the two dispatch
/// name prefixes, and the path-qualified element lists.
pub struct Awig {
    pub module_name: String,
    pub reg_prefix: String,
    pub mem_prefix: String,
    pub regs: Vec<Register>,
    pub mems: Vec<Memory>,
}

/// The whole generated module: every accessor pair (registers then
/// memories, list order preserved), the four dispatch entry points,
/// and the four cross-language export declarations, inside one named
/// module block.
pub open spec fn sp_module_doc(
    module_name: Seq<char>,
    reg_prefix: Seq<char>,
    mem_prefix: Seq<char>,
    regs: Seq<ElemView>,
    mems: Seq<ElemView>,
) -> DocView {
    let accessors = sp_fold_memory_accessors(sp_fold_register_accessors(vnil(), regs), mems);
    let switches = vcat(
        vcat(
            vcat(
                vcat(
                    vcat(
                        vcat(sp_switch_read_register(reg_prefix, regs), vline()),
                        sp_switch_write_register(reg_prefix, regs),
                    ),
                    vline(),
                ),
                sp_switch_read_memory(mem_prefix, mems),
            ),
            vline(),
        ),
        sp_switch_write_memory(mem_prefix, mems),
    );
    let d0 = vcat(accessors, switches);
    let d1 = vcat(vcat(d0, vline()), sp_export(sp_read_name(reg_prefix)));
    let d2 = vcat(vcat(d1, vline()), sp_export(sp_write_name(reg_prefix)));
    let d3 = vcat(vcat(d2, vline()), sp_export(sp_read_name(mem_prefix)));
    let d4 = vcat(vcat(d3, vline()), sp_export(sp_write_name(mem_prefix)));
    sp_module(module_name, d4)
}

impl Awig {
    /// Emit the whole module document for this request.
    pub fn to_doc(&self) -> (d: Doc)
        requires
            widths_ok(self.regs.deep_view()),
            widths_ok(self.mems.deep_view()),
        ensures
            d@ == sp_module_doc(
                self.module_name@,
                self.reg_prefix@,
                self.mem_prefix@,
                self.regs.deep_view(),
                self.mems.deep_view(),
            ),
    {
        let ghost rdv = self.regs.deep_view();
        let ghost mdv = self.mems.deep_view();
        let mut doc = nil();
        let mut i: usize = 0;
        proof {
            assert(rdv.take(0) =~= Seq::<ElemView>::empty());
        }
        while i < self.regs.len()
            invariant
                i <= self.regs.len(),
                rdv == self.regs.deep_view(),
                rdv.len() == self.regs.len(),
                widths_ok(rdv),
                doc@ == sp_fold_register_accessors(vnil(), rdv.take(i as int)),
            decreases self.regs.len() - i,
        {
            let r = &self.regs[i];
            proof {
                assert(rdv[i as int] == self.regs@[i as int].deep_view());
                assert(1 <= rdv[i as int].width <= u32::MAX - 31);
            }
            doc = doc.append(r.to_doc()).append(line());
            proof {
                assert(rdv.take(i + 1).drop_last() =~= rdv.take(i as int));
                assert(rdv.take(i + 1).last() == rdv[i as int]);
            }
            i = i + 1;
        }
        proof {
            assert(rdv.take(self.regs.len() as int) =~= rdv);
        }
        let ghost racc = sp_fold_register_accessors(vnil(), rdv);
        let mut j: usize = 0;
        proof {
            assert(mdv.take(0) =~= Seq::<ElemView>::empty());
        }
        while j < self.mems.len()
            invariant
                j <= self.mems.len(),
                mdv == self.mems.deep_view(),
                mdv.len() == self.mems.len(),
                widths_ok(mdv),
                doc@ == sp_fold_memory_accessors(racc, mdv.take(j as int)),
            decreases self.mems.len() - j,
        {
            let m = &self.mems[j];
            proof {
                assert(mdv[j as int] == self.mems@[j as int].deep_view());
                assert(1 <= mdv[j as int].width <= u32::MAX - 31);
            }
            doc = doc.append(m.to_doc()).append(line());
            proof {
                assert(mdv.take(j + 1).drop_last() =~= mdv.take(j as int));
                assert(mdv.take(j + 1).last() == mdv[j as int]);
            }
            j = j + 1;
        }
        proof {
            assert(mdv.take(self.mems.len() as int) =~= mdv);
        }
        doc = doc.append(
            func_switch_read_register(self.reg_prefix.as_str(), &self.regs).append(line()).append(
                func_switch_write_register(self.reg_prefix.as_str(), &self.regs),
            ).append(line()).append(
                func_switch_read_memory(self.mem_prefix.as_str(), &self.mems),
            ).append(line()).append(func_switch_write_memory(self.mem_prefix.as_str(), &self.mems)),
        );
        let reg_read = func_read_name(self.reg_prefix.as_str());
        let reg_write = func_write_name(self.reg_prefix.as_str());
        let mem_read = func_read_name(self.mem_prefix.as_str());
        let mem_write = func_write_name(self.mem_prefix.as_str());
        doc = doc.append(line()).append(func_export(reg_read.as_str()));
        doc = doc.append(line()).append(func_export(reg_write.as_str()));
        doc = doc.append(line()).append(func_export(mem_read.as_str()));
        doc = doc.append(line()).append(func_export(mem_write.as_str()));
        func_module(self.module_name.as_str(), doc)
    }
}

/// No two elements of the list share a hardware id.
pub open spec fn unique_hids(s: Seq<ElemView>) -> bool {
    forall|i: int, j: int|
        0 <= i < j < s.len() ==> #[trigger] s[i].hid != #[trigger] s[j].hid
}

/// The configuration faults that stop generation before any text is
/// produced.
#[derive(Clone, Copy, Debug, PartialEq, Eq, Structural)]
pub enum ConfigError {
    /// Two registers share a hardware id.
    DuplicateRegisterHid,
    /// Two memories share a hardware id.
    DuplicateMemoryHid,
}

/// Whether every register carries a distinct hardware id.
pub fn check_register_hid(reg: &Vec<Register>) -> (r: bool)
    ensures
        r == unique_hids(reg.deep_view()),
{
    broadcast use vstd::std_specs::hash::group_hash_axioms;

    let ghost dv = reg.deep_view();
    let mut map: HashSet<u32> = HashSet::new();
    let mut i: usize = 0;
    while i < reg.len()
        invariant
            i <= reg.len(),
            dv == reg.deep_view(),
            dv.len() == reg.len(),
            unique_hids(dv.take(i as int)),
            forall|h: u32|
                #[trigger] map@.contains(h) <==> exists|k: int| 0 <= k < i && #[trigger] dv[k].hid == h,
        decreases reg.len() - i,
    {
        let r = &reg[i];
        proof {
            assert(dv[i as int] == reg@[i as int].deep_view());
        }
        if map.contains(&r.hid) {
            proof {
                let k = choose|k: int| 0 <= k < i && #[trigger] dv[k].hid == r.hid;
                assert(dv[k].hid == dv[i as int].hid);
            }
            return false;
        }
        let ghost pre = map@;
        map.insert(r.hid);
        proof {
            assert forall|a: int, b: int| 0 <= a < b < i + 1 implies #[trigger] dv.take(
                i + 1,
            )[a].hid != #[trigger] dv.take(i + 1)[b].hid by {
                assert(dv.take(i + 1)[a] == dv[a]);
                assert(dv.take(i + 1)[b] == dv[b]);
                if b < i {
                    assert(dv.take(i as int)[a].hid != dv.take(i as int)[b].hid);
                } else {
                    assert(!pre.contains(dv[b].hid));
                }
            }
            assert forall|h: u32| #[trigger] map@.contains(h) implies exists|k: int|
                0 <= k < i + 1 && #[trigger] dv[k].hid == h by {
                if h == dv[i as int].hid {
                    assert(dv[i as int].hid == h);
                } else {
                    assert(pre.contains(h));
                    let k = choose|k: int| 0 <= k < i && #[trigger] dv[k].hid == h;
                    assert(dv[k].hid == h);
                }
            }
            assert forall|h: u32| (exists|k: int| 0 <= k < i + 1 && #[trigger] dv[k].hid == h)
                implies #[trigger] map@.contains(h) by {
                let k = choose|k: int| 0 <= k < i + 1 && #[trigger] dv[k].hid == h;
                if k < i {
                    assert(pre.contains(h));
                } else {
                    assert(dv[i as int].hid == h);
                }
            }
        }
        i = i + 1;
    }
    proof {
        assert(dv.take(reg.len() as int) =~= dv);
    }
    true
}

/// Whether every memory carries a distinct hardware id.
pub fn check_memory_hid(mem: &Vec<Memory>) -> (r: bool)
    ensures
        r == unique_hids(mem.deep_view()),
{
    broadcast use vstd::std_specs::hash::group_hash_axioms;

    let ghost dv = mem.deep_view();
    let mut map: HashSet<u32> = HashSet::new();
    let mut i: usize = 0;
    while i < mem.len()
        invariant
            i <= mem.len(),
            dv == mem.deep_view(),
            dv.len() == mem.len(),
            unique_hids(dv.take(i as int)),
            forall|h: u32|
                #[trigger] map@.contains(h) <==> exists|k: int| 0 <= k < i && #[trigger] dv[k].hid == h,
        decreases mem.len() - i,
    {
        let m = &mem[i];
        proof {
            assert(dv[i as int] == mem@[i as int].deep_view());
        }
        if map.contains(&m.hid) {
            proof {
                let k = choose|k: int| 0 <= k < i && #[trigger] dv[k].hid == m.hid;
                assert(dv[k].hid == dv[i as int].hid);
            }
            return false;
        }
        let ghost pre = map@;
        map.insert(m.hid);
        proof {
            assert forall|a: int, b: int| 0 <= a < b < i + 1 implies #[trigger] dv.take(
                i + 1,
            )[a].hid != #[trigger] dv.take(i + 1)[b].hid by {
                assert(dv.take(i + 1)[a] == dv[a]);
                assert(dv.take(i + 1)[b] == dv[b]);
                if b < i {
                    assert(dv.take(i as int)[a].hid != dv.take(i as int)[b].hid);
                } else {
                    assert(!pre.contains(dv[b].hid));
                }
            }
            assert forall|h: u32| #[trigger] map@.contains(h) implies exists|k: int|
                0 <= k < i + 1 && #[trigger] dv[k].hid == h by {
                if h == dv[i as int].hid {
                    assert(dv[i as int].hid == h);
                } else {
                    assert(pre.contains(h));
                    let k = choose|k: int| 0 <= k < i && #[trigger] dv[k].hid == h;
                    assert(dv[k].hid == h);
                }
            }
            assert forall|h: u32| (exists|k: int| 0 <= k < i + 1 && #[trigger] dv[k].hid == h)
                implies #[trigger] map@.contains(h) by {
                let k = choose|k: int| 0 <= k < i + 1 && #[trigger] dv[k].hid == h;
                if k < i {
                    assert(pre.contains(h));
                } else {
                    assert(dv[i as int].hid == h);
                }
            }
        }
        i = i + 1;
    }
    proof {
        assert(dv.take(mem.len() as int) =~= dv);
    }
    true
}

/// A path prefixed once with the top module's instance name.
pub open spec fn sp_qualify(top: Seq<char>, path: Seq<char>) -> Seq<char> {
    top + "."@ + path
}

/// Every element with its path qualified by the top module's name;
/// ids and widths are untouched.
pub open spec fn qualify_elems(top: Seq<char>, s: Seq<ElemView>) -> Seq<ElemView> {
    s.map_values(
        |e: ElemView| ElemView { hid: e.hid, path: sp_qualify(top, e.path), width: e.width },
    )
}

fn qualify_path(top: &str, path: &str) -> (r: String)
    ensures
        r@ == sp_qualify(top@, path@),
{
    let mut r = top.to_owned();
    r.append(".");
    r.append(path);
    r
}

/// The full text of the generated module for the given names and
/// element lists, paths qualified with `top`.
pub open spec fn sp_compile_text(
    top: Seq<char>,
    module_name: Seq<char>,
    reg_prefix: Seq<char>,
    mem_prefix: Seq<char>,
    regs: Seq<ElemView>,
    mems: Seq<ElemView>,
) -> Seq<char> {
    layout(
        sp_module_doc(
            module_name,
            reg_prefix,
            mem_prefix,
            qualify_elems(top, regs),
            qualify_elems(top, mems),
        ),
        0,
    )
}

/// Generate the accessor module: validate id uniqueness on both lists,
/// qualify every path with `top_name`, assemble the module document
/// and render it.  No text is produced on a validation fault, and the
/// text of a success is a pure function of the arguments.
pub fn compile(
    top_name: &str,
    module_name: &str,
    reg_func_prefix: &str,
    mem_func_prefix: &str,
    reg: &Vec<Register>,
    mem: &Vec<Memory>,
) -> (r: Result<String, ConfigError>)
    requires
        widths_ok(reg.deep_view()),
        widths_ok(mem.deep_view()),
    ensures
        match r {
            Ok(text) => unique_hids(reg.deep_view()) && unique_hids(mem.deep_view()) && text@
                == sp_compile_text(
                top_name@,
                module_name@,
                reg_func_prefix@,
                mem_func_prefix@,
                reg.deep_view(),
                mem.deep_view(),
            ),
            Err(e) => !(unique_hids(reg.deep_view()) && unique_hids(mem.deep_view())) && ((e
                == ConfigError::DuplicateRegisterHid) <==> !unique_hids(reg.deep_view())) && ((e
                == ConfigError::DuplicateMemoryHid) <==> (unique_hids(reg.deep_view())
                && !unique_hids(mem.deep_view()))),
        },
{
    let ghost rdv = reg.deep_view();
    let ghost mdv = mem.deep_view();
    if !check_register_hid(reg) {
        return Err(ConfigError::DuplicateRegisterHid);
    }
    if !check_memory_hid(mem) {
        return Err(ConfigError::DuplicateMemoryHid);
    }
    let mut llreg: Vec<Register> = Vec::new();
    let mut i: usize = 0;
    proof {
        assert(llreg.deep_view() =~= qualify_elems(top_name@, rdv.take(0)));
    }
    while i < reg.len()
        invariant
            i <= reg.len(),
            rdv == reg.deep_view(),
            rdv.len() == reg.len(),
            llreg.deep_view() == qualify_elems(top_name@, rdv.take(i as int)),
        decreases reg.len() - i,
    {
        let r = &reg[i];
        proof {
            assert(rdv[i as int] == reg@[i as int].deep_view());
        }
        let ghost prev = llreg.deep_view();
        llreg.push(
            Register { hid: r.hid, path: qualify_path(top_name, r.path.as_str()), width: r.width },
        );
        proof {
            let ghost cur = llreg.deep_view();
            let ghost goal = qualify_elems(top_name@, rdv.take(i + 1));
            assert(prev.len() == i);
            assert(llreg@.len() == i + 1);
            assert(cur.len() == i + 1);
            assert forall|k: int| 0 <= k < i + 1 implies #[trigger] cur[k] == goal[k] by {
                assert(goal[k] == (ElemView {
                    hid: rdv.take(i + 1)[k].hid,
                    path: sp_qualify(top_name@, rdv.take(i + 1)[k].path),
                    width: rdv.take(i + 1)[k].width,
                }));
                assert(cur[k] == llreg@[k].deep_view());
                if k < i {
                    assert(cur[k] == prev[k]);
                    assert(prev[k] == qualify_elems(top_name@, rdv.take(i as int))[k]);
                    assert(rdv.take(i + 1)[k] == rdv.take(i as int)[k]);
                } else {
                    assert(rdv.take(i + 1)[k] == rdv[i as int]);
                }
            }
            assert(cur =~= goal);
        }
        i = i + 1;
    }
    proof {
        assert(rdv.take(reg.len() as int) =~= rdv);
    }
    let mut llmem: Vec<Memory> = Vec::new();
    let mut j: usize = 0;
    proof {
        assert(llmem.deep_view() =~= qualify_elems(top_name@, mdv.take(0)));
    }
    while j < mem.len()
        invariant
            j <= mem.len(),
            mdv == mem.deep_view(),
            mdv.len() == mem.len(),
            llmem.deep_view() == qualify_elems(top_name@, mdv.take(j as int)),
        decreases mem.len() - j,
    {
        let m = &mem[j];
        proof {
            assert(mdv[j as int] == mem@[j as int].deep_view());
        }
        let ghost prev = llmem.deep_view();
        llmem.push(
            Memory { hid: m.hid, path: qualify_path(top_name, m.path.as_str()), width: m.width },
        );
        proof {
            let ghost cur = llmem.deep_view();
            let ghost goal = qualify_elems(top_name@, mdv.take(j + 1));
            assert(prev.len() == j);
            assert(llmem@.len() == j + 1);
            assert(cur.len() == j + 1);
            assert forall|k: int| 0 <= k < j + 1 implies #[trigger] cur[k] == goal[k] by {
                assert(goal[k] == (ElemView {
                    hid: mdv.take(j + 1)[k].hid,
                    path: sp_qualify(top_name@, mdv.take(j + 1)[k].path),
                    width: mdv.take(j + 1)[k].width,
                }));
                assert(cur[k] == llmem@[k].deep_view());
                if k < j {
                    assert(cur[k] == prev[k]);
                    assert(prev[k] == qualify_elems(top_name@, mdv.take(j as int))[k]);
                    assert(mdv.take(j + 1)[k] == mdv.take(j as int)[k]);
                } else {
                    assert(mdv.take(j + 1)[k] == mdv[j as int]);
                }
            }
            assert(cur =~= goal);
        }
        j = j + 1;
    }
    proof {
        assert(mdv.take(mem.len() as int) =~= mdv);
    }
    let awig = Awig {
        module_name: module_name.to_owned(),
        reg_prefix: reg_func_prefix.to_owned(),
        mem_prefix: mem_func_prefix.to_owned(),
        regs: llreg,
        mems: llmem,
    };
    proof {
        assert forall|k: int| 0 <= k < awig.regs.deep_view().len() implies 1 <= #[trigger] awig.regs.deep_view()[k].width
            <= u32::MAX - 31 by {
            assert(1 <= rdv[k].width <= u32::MAX - 31);
        }
        assert forall|k: int| 0 <= k < awig.mems.deep_view().len() implies 1 <= #[trigger] awig.mems.deep_view()[k].width
            <= u32::MAX - 31 by {
            assert(1 <= mdv[k].width <= u32::MAX - 31);
        }
    }
    let d = awig.to_doc();
    Ok(render(&d))
}

/// Generation is deterministic: two compile results for identical
/// inputs are byte-identical, since the text of a success is pinned to
/// `sp_compile_text` of the arguments alone.
pub proof fn lemma_compile_deterministic(
    t1: Seq<char>,
    t2: Seq<char>,
    top: Seq<char>,
    module_name: Seq<char>,
    reg_prefix: Seq<char>,
    mem_prefix: Seq<char>,
    regs: Seq<ElemView>,
    mems: Seq<ElemView>,
)
    requires
        t1 == sp_compile_text(top, module_name, reg_prefix, mem_prefix, regs, mems),
        t2 == sp_compile_text(top, module_name, reg_prefix, mem_prefix, regs, mems),
    ensures
        t1 == t2,
{
}

/// Qualifying a path and normalizing its separators gives the top
/// name, an underscore, and the normalized raw path: the accessor
/// names of an element at raw path `p` under top module `t` are
/// `underscored(t)_underscored(p)_read` and `..._write`.
pub proof fn lemma_qualified_names(top: Seq<char>, path: Seq<char>)
    ensures
        sp_read_name(sp_qualify(top, path)) == underscored(top) + "_"@ + underscored(path)
            + "_read"@,
        sp_write_name(sp_qualify(top, path)) == underscored(top) + "_"@ + underscored(path)
            + "_write"@,
{
    reveal_strlit(".");
    reveal_strlit("_");
    assert(underscored(sp_qualify(top, path)) =~= underscored(top) + "_"@ + underscored(path));
    assert(sp_read_name(sp_qualify(top, path)) =~= underscored(top) + "_"@ + underscored(path)
        + "_read"@);
    assert(sp_write_name(sp_qualify(top, path)) =~= underscored(top) + "_"@ + underscored(path)
        + "_write"@);
}

/// With an empty register list the register dispatch bodies reduce to
/// one unconditional diagnostic: the conditional chain is empty.
pub proof fn lemma_empty_register_dispatch(prefix: Seq<char>)
    ensures
        sp_switch_read_register(prefix, Seq::empty()) == sp_func_read(
            prefix,
            vcat(vcat(sp_arg("hid"@), vline()), sp_arg("sel"@)),
            vcat(vnil(), sp_error("there is no register declared"@)),
        ),
        sp_switch_write_register(prefix, Seq::empty()) == sp_func_write(
            prefix,
            vcat(vcat(vcat(vcat(sp_arg("hid"@), vline()), sp_arg("sel"@)), vline()), sp_arg("value"@)),
            vcat(vnil(), sp_error("there is no register declared"@)),
        ),
{
}

/// With an empty memory list the memory dispatch bodies reduce to one
/// unconditional diagnostic.
pub proof fn lemma_empty_memory_dispatch(prefix: Seq<char>)
    ensures
        sp_switch_read_memory(prefix, Seq::empty()) == sp_func_read(
            prefix,
            vcat(vcat(vcat(vcat(sp_arg("hid"@), vline()), sp_arg("addr"@)), vline()), sp_arg("sel"@)),
            vcat(vnil(), sp_error("there is no memory declared"@)),
        ),
        sp_switch_write_memory(prefix, Seq::empty()) == sp_func_write(
            prefix,
            vcat(
                vcat(
                    vcat(vcat(vcat(vcat(sp_arg("hid"@), vline()), sp_arg("addr"@)), vline()), sp_arg("sel"@)),
                    vline(),
                ),
                sp_arg("value"@),
            ),
            vcat(vnil(), sp_error("there is no memory declared"@)),
        ),
{
}

/// A non-empty element list keeps its full dispatch chain: each list
/// extends the chain of its prefix by exactly one branch, and the
/// dispatch body ends in the `else` diagnostic.
pub proof fn lemma_dispatch_chain_grows(regs: Seq<ElemView>)
    requires
        regs.len() > 0,
    ensures
        sp_chain_read_register(regs) == vcat(
            sp_chain_read_register(regs.drop_last()),
            sp_entry_read_register(regs.last(), regs.len() == 1),
        ),
        sp_chain_write_register(regs) == vcat(
            sp_chain_write_register(regs.drop_last()),
            sp_entry_write_register(regs.last(), regs.len() == 1),
        ),
{
}

} // verus!
