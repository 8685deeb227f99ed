use lastlayer::awig::{func_read_name, func_write_name};
use lastlayer::doc::{cat, nest, render, text, text_u32, u32_dec};
use lastlayer::doc;

#[test]
fn decimal_notation() {
    assert_eq!(u32_dec(0), "0");
    assert_eq!(u32_dec(7), "7");
    assert_eq!(u32_dec(32), "32");
    assert_eq!(u32_dec(1234567890), "1234567890");
    assert_eq!(u32_dec(u32::MAX), "4294967295");
}

#[test]
fn accessor_names_normalize_separators() {
    assert_eq!(func_read_name("a.b.c"), "a_b_c_read");
    assert_eq!(func_write_name("a.b.c"), "a_b_c_write");
    assert_eq!(func_read_name("flat"), "flat_read");
}

#[test]
fn text_renders_as_is() {
    assert_eq!(render(&text("hello")), "hello");
    assert_eq!(render(&text_u32(451)), "451");
}

#[test]
fn line_breaks_carry_the_nesting() {
    let inner = cat(cat(text("begin"), doc::line()), text("body"));
    let d = cat(cat(nest(2, inner), doc::line()), text("end"));
    assert_eq!(render(&d), "begin\n  body\nend");
}

#[test]
fn nesting_accumulates() {
    let deep = nest(2, cat(text("a"), nest(2, cat(doc::line(), text("b")))));
    assert_eq!(render(&deep), "a\n    b");
}
