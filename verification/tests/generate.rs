use lastlayer::awig::{compile, ConfigError};
use lastlayer::{Memory, Register};

fn reg(hid: u32, path: &str, width: u32) -> Register {
    Register { hid, path: path.to_string(), width }
}

fn mem(hid: u32, path: &str, width: u32) -> Memory {
    Memory { hid, path: path.to_string(), width }
}

#[test]
fn empty_lists_give_diagnostic_only_module() {
    let text = compile("top", "mod", "dpi_reg", "dpi_mem", &vec![], &vec![]).unwrap();
    let expected = "\
module mod;
  function int dpi_reg_read;
    input int hid;
    input int sel;
    begin
      $error(\"there is no register declared\");
    end
  endfunction
  function void dpi_reg_write;
    input int hid;
    input int sel;
    input int value;
    begin
      $error(\"there is no register declared\");
    end
  endfunction
  function int dpi_mem_read;
    input int hid;
    input int addr;
    input int sel;
    begin
      $error(\"there is no memory declared\");
    end
  endfunction
  function void dpi_mem_write;
    input int hid;
    input int addr;
    input int sel;
    input int value;
    begin
      $error(\"there is no memory declared\");
    end
  endfunction
  export \"DPI-C\" function dpi_reg_read;
  export \"DPI-C\" function dpi_reg_write;
  export \"DPI-C\" function dpi_mem_read;
  export \"DPI-C\" function dpi_mem_write;
endmodule";
    assert_eq!(text, expected);
}

#[test]
fn one_register_accessors() {
    let regs = vec![reg(0, "a.b", 8)];
    let text = compile("t", "m", "r", "mm", &regs, &vec![]).unwrap();
    let read_accessor = "\
  function int t_a_b_read;
    input int sel;
    reg [32-1:0] data;
    begin
      assert (sel < 1) else $error(\"sel out of bounds\");
      data[0+:32] = 0;
      data[0+:8] = t.a.b;
      return data[sel*32+:32];
    end
  endfunction";
    let write_accessor = "\
  function void t_a_b_write;
    input int sel;
    input int value;
    reg [32-1:0] data;
    begin
      assert (sel < 1) else $error(\"sel out of bounds\");
      data[0+:32] = 0;
      data[0+:8] = t.a.b;
      data[sel*32+:32] = value;
      t.a.b = data[0+:8];
    end
  endfunction";
    let read_dispatch = "\
  function int r_read;
    input int hid;
    input int sel;
    begin
      if (hid == 0)
      begin
        return t_a_b_read(sel);
      end
      else
      begin
        $error(\"wrong hid for reading register\");
      end
    end
  endfunction";
    assert!(text.starts_with("module m;\n"));
    assert!(text.ends_with("endmodule"));
    assert!(text.contains(read_accessor));
    assert!(text.contains(write_accessor));
    assert!(text.contains(read_dispatch));
}

#[test]
fn wide_register_rounds_buffer_and_selector() {
    let regs = vec![reg(0, "x", 33)];
    let text = compile("t", "m", "r", "mm", &regs, &vec![]).unwrap();
    assert!(text.contains("reg [64-1:0] data;"));
    assert!(text.contains("assert (sel < 2) else $error(\"sel out of bounds\");"));
    assert!(text.contains("data[0+:33] = t.x;"));
}

#[test]
fn memory_accessors_take_an_address() {
    let mems = vec![mem(0, "ram", 32)];
    let text = compile("t", "m", "r", "mm", &vec![], &mems).unwrap();
    assert!(text.contains("data[0+:32] = t.ram[addr];"));
    assert!(text.contains("t.ram[addr] = data[0+:32];"));
    assert!(text.contains("return t_ram_read(addr, sel);"));
    assert!(text.contains("t_ram_write(addr, sel, value);"));
}

#[test]
fn duplicate_register_ids_are_a_configuration_error() {
    let regs = vec![reg(0, "a", 8), reg(1, "b", 8), reg(0, "c", 8)];
    let r = compile("top", "mod", "dpi_reg", "dpi_mem", &regs, &vec![]);
    assert_eq!(r.unwrap_err(), ConfigError::DuplicateRegisterHid);
}

#[test]
fn duplicate_memory_ids_are_a_configuration_error() {
    let mems = vec![mem(2, "a", 8), mem(2, "b", 8)];
    let r = compile("top", "mod", "dpi_reg", "dpi_mem", &vec![], &mems);
    assert_eq!(r.unwrap_err(), ConfigError::DuplicateMemoryHid);
}

#[test]
fn duplicate_register_ids_win_over_duplicate_memory_ids() {
    let regs = vec![reg(0, "a", 8), reg(0, "b", 8)];
    let mems = vec![mem(1, "c", 8), mem(1, "d", 8)];
    let r = compile("top", "mod", "dpi_reg", "dpi_mem", &regs, &mems);
    assert_eq!(r.unwrap_err(), ConfigError::DuplicateRegisterHid);
}

#[test]
fn unique_ids_give_one_dispatch_pair_per_kind() {
    let regs = vec![reg(0, "a", 8), reg(1, "b", 16), reg(2, "c", 32)];
    let mems = vec![mem(0, "m0", 8), mem(1, "m1", 64)];
    let text = compile("top", "mod", "dpi_reg", "dpi_mem", &regs, &mems).unwrap();
    assert_eq!(text.matches("function int dpi_reg_read;").count(), 1);
    assert_eq!(text.matches("function void dpi_reg_write;").count(), 1);
    assert_eq!(text.matches("function int dpi_mem_read;").count(), 1);
    assert_eq!(text.matches("function void dpi_mem_write;").count(), 1);
    // One conditional branch per id in each dispatch: 3 registers in two
    // dispatch functions, 2 memories in two dispatch functions.
    assert_eq!(text.matches("if (hid ==").count(), 2 * 3 + 2 * 2);
    // One trailing diagnostic fallback per dispatch function.
    assert_eq!(text.matches("$error(\"wrong hid for reading register\");").count(), 1);
    assert_eq!(text.matches("$error(\"wrong hid for writing register\");").count(), 1);
    assert_eq!(text.matches("$error(\"wrong hid for reading memory\");").count(), 1);
    assert_eq!(text.matches("$error(\"wrong hid for writing memory\");").count(), 1);
    assert_eq!(text.matches("there is no").count(), 0);
}

#[test]
fn identical_inputs_give_byte_identical_output() {
    let regs = vec![reg(0, "a.b", 8), reg(1, "c", 48)];
    let mems = vec![mem(0, "ram", 128)];
    let t1 = compile("top", "mod", "dpi_reg", "dpi_mem", &regs, &mems).unwrap();
    let t2 = compile("top", "mod", "dpi_reg", "dpi_mem", &regs, &mems).unwrap();
    assert_eq!(t1.as_bytes(), t2.as_bytes());
}

#[test]
fn paths_are_qualified_once_with_the_top_name() {
    let regs = vec![reg(0, "a.b", 8)];
    let text = compile("top", "mod", "dpi_reg", "dpi_mem", &regs, &vec![]).unwrap();
    assert!(text.contains("function int top_a_b_read;"));
    assert!(text.contains("function void top_a_b_write;"));
    assert!(text.contains("data[0+:8] = top.a.b;"));
    assert!(text.contains("top.a.b = data[0+:8];"));
    assert_eq!(text.matches("top.top").count(), 0);
}

#[test]
fn empty_registers_with_memories_keep_the_memory_chain() {
    let mems = vec![mem(0, "m0", 8), mem(1, "m1", 8)];
    let text = compile("top", "mod", "dpi_reg", "dpi_mem", &vec![], &mems).unwrap();
    // Register dispatch bodies reduce to a single diagnostic.
    assert_eq!(text.matches("$error(\"there is no register declared\");").count(), 2);
    assert_eq!(text.matches("wrong hid for reading register").count(), 0);
    assert_eq!(text.matches("wrong hid for writing register").count(), 0);
    // Memory dispatch bodies retain their full chain.
    assert_eq!(text.matches("if (hid ==").count(), 2 * 2);
    assert_eq!(text.matches("$error(\"wrong hid for reading memory\");").count(), 1);
    assert_eq!(text.matches("$error(\"wrong hid for writing memory\");").count(), 1);
}
